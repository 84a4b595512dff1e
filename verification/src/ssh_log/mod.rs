//! Lines of the SSH daemon's log as structured values.

pub mod consts;
pub mod enums;
pub mod utils;

use crate::net::IpAddress;
use crate::pattern::{capture_groups, captures};
use crate::ssh_log::consts::{LogPatterns, REGEX_STR};
use crate::ssh_log::enums::{SSHDLogError, SSHDLogType};
use crate::ssh_log::utils::{
    parse_date, parse_host_name, parse_ip_address, parse_log_id, parse_port, parse_username,
    spec_parse_date, spec_parse_host_name, spec_parse_ip_address, spec_parse_log_id,
    spec_parse_port, spec_parse_username,
};
use crate::time::{current_year, Timestamp};
use vstd::prelude::*;

verus! {

/// A struct representation of an SSHD log line
#[derive(PartialEq, Debug)]
pub struct SSHDLog {
    id: i64,
    log_timestamp: Timestamp,
    host_name: String,
    username: Option<String>,
    remote_address: Option<IpAddress>,
    remote_port: Option<u16>,
    log_type: SSHDLogType,
}

/// The fields of a line, as plain values.
pub struct SSHDLogView {
    pub id: i64,
    pub log_timestamp: Timestamp,
    pub host_name: Seq<char>,
    pub username: Option<Seq<char>>,
    pub remote_address: Option<IpAddress>,
    pub remote_port: Option<u16>,
    pub log_type: SSHDLogType,
}

impl View for SSHDLog {
    type V = SSHDLogView;

    closed spec fn view(&self) -> SSHDLogView {
        SSHDLogView {
            id: self.id,
            log_timestamp: self.log_timestamp,
            host_name: self.host_name@,
            username: self.username.deep_view(),
            remote_address: self.remote_address,
            remote_port: self.remote_port,
            log_type: self.log_type,
        }
    }
}

/// What a line of the log says, read in the year `year`. A line that
/// the line pattern does not match is no log line. Else the fields are
/// read in turn (date, host, user, process id, address, port) and the
/// first that fails gives the error. Every line counts as a closed
/// connection.
pub open spec fn spec_sshd_log(input: Seq<char>, year: Seq<char>) -> Result<
    SSHDLogView,
    SSHDLogError,
> {
    if capture_groups(REGEX_STR@, input) is None {
        Err(SSHDLogError::LogParseError)
    } else {
        match spec_parse_date(input, year) {
            Err(e) => Err(e),
            Ok(log_timestamp) => match spec_parse_host_name(input) {
                Err(e) => Err(e),
                Ok(host_name) => match spec_parse_log_id(input) {
                    Err(e) => Err(e),
                    Ok(id) => match spec_parse_ip_address(input) {
                        Err(e) => Err(e),
                        Ok(remote_address) => match spec_parse_port(input) {
                            Err(e) => Err(e),
                            Ok(remote_port) => Ok(
                                SSHDLogView {
                                    id,
                                    log_timestamp,
                                    host_name,
                                    username: spec_parse_username(input),
                                    remote_address,
                                    remote_port,
                                    log_type: SSHDLogType::ConnectionClosed,
                                },
                            ),
                        },
                    },
                },
            },
        }
    }
}

impl SSHDLog {
    /// Instantiate a new instance of an SSHDLog struct. The log gives no
    /// year, so the line is taken to be of the current year.
    /// # Arguments
    /// * `input` - A string ending in a \n
    pub fn new(patterns: &LogPatterns, input: &str) -> (res: Result<SSHDLog, SSHDLogError>)
        ensures
            exists|year: Seq<char>|
                match #[trigger] spec_sshd_log(input@, year) {
                    Ok(log) => res matches Ok(v) && v@ == log,
                    Err(e) => res matches Err(x) && x == e,
                },
    {
        let year = current_year();
        let res = Self::new_in_year(patterns, input, year.as_str());
        assert(match spec_sshd_log(input@, year@) {
            Ok(log) => res matches Ok(v) && v@ == log,
            Err(e) => res matches Err(x) && x == e,
        });
        res
    }

    /// Reads a line that was written in the year `year`, which is given
    /// in decimal digits.
    pub fn new_in_year(patterns: &LogPatterns, input: &str, year: &str) -> (res: Result<
        SSHDLog,
        SSHDLogError,
    >)
        ensures
            match spec_sshd_log(input@, year@) {
                Ok(log) => res matches Ok(v) && v@ == log,
                Err(e) => res matches Err(x) && x == e,
            },
    {
        proof {
            use_type_invariant(patterns);
        }
        if captures(&patterns.log, input).is_none() {
            return Err(SSHDLogError::LogParseError);
        }
        let log_timestamp = match parse_date(patterns, input, year) {
            Ok(v) => v,
            Err(e) => {
                return Err(e);
            },
        };
        let host_name = match parse_host_name(patterns, input) {
            Ok(v) => v,
            Err(e) => {
                return Err(e);
            },
        };
        let username = match parse_username(patterns, input) {
            Ok(v) => v,
            Err(e) => {
                return Err(e);
            },
        };
        let id = match parse_log_id(patterns, input) {
            Ok(v) => v,
            Err(e) => {
                return Err(e);
            },
        };
        let remote_address = match parse_ip_address(patterns, input) {
            Ok(v) => v,
            Err(e) => {
                return Err(e);
            },
        };
        let remote_port = match parse_port(patterns, input) {
            Ok(v) => v,
            Err(e) => {
                return Err(e);
            },
        };
        Ok(
            SSHDLog {
                id,
                log_timestamp,
                host_name,
                username,
                remote_address,
                remote_port,
                log_type: SSHDLogType::ConnectionClosed,
            },
        )
    }

    /// Gets the timestamp for this struct
    pub fn get_timestamp(&self) -> (t: &Timestamp)
        ensures
            *t == self@.log_timestamp,
    {
        &self.log_timestamp
    }

    /// Gets the log ID for this struct
    pub fn get_id(&self) -> (id: &i64)
        ensures
            *id == self@.id,
    {
        &self.id
    }

    pub fn get_ip_addr(&self) -> (addr: Option<IpAddress>)
        ensures
            addr == self@.remote_address,
    {
        self.remote_address
    }

    pub fn get_host_name(&self) -> (name: &str)
        ensures
            name@ == self@.host_name,
    {
        self.host_name.as_str()
    }

    pub fn get_username(&self) -> (name: Option<&str>)
        ensures
            name.deep_view() == self@.username,
    {
        match &self.username {
            Some(s) => Some(s.as_str()),
            None => None,
        }
    }

    pub fn get_port(&self) -> (port: Option<u16>)
        ensures
            port == self@.remote_port,
    {
        self.remote_port
    }

    pub fn get_log_type(&self) -> (kind: &SSHDLogType)
        ensures
            *kind == self@.log_type,
    {
        &self.log_type
    }
}

} // verus!
