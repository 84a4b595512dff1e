//! The fields of one line of the SSH daemon's log, each read by its own
//! pattern.

use crate::net::{parse_ip, spec_parse_ip, IpAddress};
use crate::pattern::{capture_groups, captures, group, group_at};
use crate::ssh_log::consts::{
    LogPatterns, DATE_REGEX_STR, HOSTNAME_REGEX_STR, IPV4_REGEX_STR, IPV6_REGEX_STR,
    LOG_ID_REGEX_STR, PORT_REGEX_STR, USERNAME_REGEX_STR,
};
use crate::ssh_log::enums::SSHDLogError;
use crate::text::{parse_i64, parse_u16, spec_parse_i64, spec_parse_u16};
use crate::time::{datetime_of, parse_datetime, Timestamp};
use vstd::prelude::*;
use vstd::string::StringExecFns;

verus! {

/// The groups of a match, where there is one.
pub type Captured = Option<Vec<Option<String>>>;

/// The format by which a line's date is read once a year stands before
/// it: year, month name, day of the month, time of day.
pub const DATE_FORMAT: &'static str = "%Y %b %d %X";

/// Capture group `i` of a search: none where the search found nothing.
pub open spec fn found(groups: Option<Seq<Option<Seq<char>>>>, i: int) -> Option<Seq<char>> {
    match groups {
        Some(g) => group(g, i),
        None => None,
    }
}

/// Looks up capture group `i` of a search.
pub fn found_at(groups: &Captured, i: usize) -> (r: Option<&str>)
    ensures
        r.deep_view() == found(groups.deep_view(), i as int),
{
    match groups {
        Some(g) => group_at(g, i),
        None => None,
    }
}

/// The date of a line in the year `year`: what the date pattern finds,
/// read with the year before it.
pub open spec fn date_of(whole: Option<Seq<char>>, year: Seq<char>) -> Result<
    Timestamp,
    SSHDLogError,
> {
    match whole {
        None => Err(SSHDLogError::TimeParseError),
        Some(date) => match datetime_of(year + " "@ + date, DATE_FORMAT@) {
            Some(t) => Ok(t),
            None => Err(SSHDLogError::TimeParseError),
        },
    }
}

pub open spec fn spec_parse_date(input: Seq<char>, year: Seq<char>) -> Result<
    Timestamp,
    SSHDLogError,
> {
    date_of(found(capture_groups(DATE_REGEX_STR@, input), 0), year)
}

/// Reads the date that stands at the start of a line. The log gives no
/// year; `year` is taken for it.
pub fn parse_date(patterns: &LogPatterns, input: &str, year: &str) -> (res: Result<
    Timestamp,
    SSHDLogError,
>)
    ensures
        res == spec_parse_date(input@, year@),
{
    proof {
        use_type_invariant(patterns);
    }
    let groups = captures(&patterns.date, input);
    let date_match = match found_at(&groups, 0) {
        Some(v) => v,
        None => {
            return Err(SSHDLogError::TimeParseError);
        },
    };
    let mut date_with_year = String::from_str(year);
    date_with_year.append(" ");
    date_with_year.append(date_match);
    match parse_datetime(date_with_year.as_str(), DATE_FORMAT) {
        Some(v) => Ok(v),
        None => Err(SSHDLogError::TimeParseError),
    }
}

/// The host name is group 1 of the host pattern's match.
pub open spec fn host_name_of(name: Option<Seq<char>>) -> Result<Seq<char>, SSHDLogError> {
    match name {
        Some(v) => Ok(v),
        None => Err(SSHDLogError::HostnameParseError),
    }
}

pub open spec fn spec_parse_host_name(input: Seq<char>) -> Result<Seq<char>, SSHDLogError> {
    host_name_of(found(capture_groups(HOSTNAME_REGEX_STR@, input), 1))
}

/// Reads the name of the host that wrote the line.
pub fn parse_host_name(patterns: &LogPatterns, input: &str) -> (res: Result<String, SSHDLogError>)
    ensures
        match spec_parse_host_name(input@) {
            Ok(name) => res matches Ok(v) && v@ == name,
            Err(e) => res matches Err(x) && x == e,
        },
{
    proof {
        use_type_invariant(patterns);
    }
    let groups = captures(&patterns.hostname, input);
    match found_at(&groups, 1) {
        Some(val) => Ok(String::from_str(val)),
        None => Err(SSHDLogError::HostnameParseError),
    }
}

/// The process id is group 1 of the id pattern's match, read as a
/// number.
pub open spec fn log_id_of(id: Option<Seq<char>>) -> Result<i64, SSHDLogError> {
    match id {
        None => Err(SSHDLogError::IdParseError),
        Some(text) => match spec_parse_i64(text) {
            Some(v) => Ok(v),
            None => Err(SSHDLogError::IdParseError),
        },
    }
}

pub open spec fn spec_parse_log_id(input: Seq<char>) -> Result<i64, SSHDLogError> {
    log_id_of(found(capture_groups(LOG_ID_REGEX_STR@, input), 1))
}

/// Reads the id of the process that wrote the line.
pub fn parse_log_id(patterns: &LogPatterns, input: &str) -> (res: Result<i64, SSHDLogError>)
    ensures
        res == spec_parse_log_id(input@),
{
    proof {
        use_type_invariant(patterns);
    }
    let groups = captures(&patterns.log_id, input);
    match found_at(&groups, 1) {
        Some(val) => match parse_i64(val) {
            Some(v) => Ok(v),
            None => Err(SSHDLogError::IdParseError),
        },
        None => Err(SSHDLogError::IdParseError),
    }
}

pub open spec fn spec_parse_username(input: Seq<char>) -> Option<Seq<char>> {
    found(capture_groups(USERNAME_REGEX_STR@, input), 1)
}

/// Reads the user that the line names, if it names one. This never
/// fails.
pub fn parse_username(patterns: &LogPatterns, input: &str) -> (res: Result<
    Option<String>,
    SSHDLogError,
>)
    ensures
        res matches Ok(name) && name.deep_view() == spec_parse_username(input@),
{
    proof {
        use_type_invariant(patterns);
    }
    let groups = captures(&patterns.username, input);
    match found_at(&groups, 1) {
        Some(val) => Ok(Some(String::from_str(val))),
        None => Ok(None),
    }
}

/// The address that a search with one of the two address patterns
/// stands for: none where it found nothing; else its group 1, which
/// must be an internet address.
pub open spec fn address_in(groups: Option<Seq<Option<Seq<char>>>>) -> Result<
    Option<IpAddress>,
    SSHDLogError,
> {
    match groups {
        None => Ok(None),
        Some(g) => match group(g, 1) {
            None => Err(SSHDLogError::IpParseError),
            Some(text) => match spec_parse_ip(text) {
                Some(addr) => Ok(Some(addr)),
                None => Err(SSHDLogError::IpParseError),
            },
        },
    }
}

/// The remote address of a line: what the IPv4 pattern finds, or else
/// what the IPv6 pattern finds.
pub open spec fn spec_parse_ip_address(input: Seq<char>) -> Result<
    Option<IpAddress>,
    SSHDLogError,
> {
    match address_in(capture_groups(IPV4_REGEX_STR@, input)) {
        Err(e) => Err(e),
        Ok(Some(addr)) => Ok(Some(addr)),
        Ok(None) => address_in(capture_groups(IPV6_REGEX_STR@, input)),
    }
}

/// Turns a search with one of the address patterns into an address.
pub fn address_from_captures(groups: &Captured) -> (res: Result<Option<IpAddress>, SSHDLogError>)
    ensures
        res == address_in(groups.deep_view()),
{
    match groups {
        None => Ok(None),
        Some(g) => match group_at(g, 1) {
            None => Err(SSHDLogError::IpParseError),
            Some(text) => match parse_ip(text) {
                Some(addr) => Ok(Some(addr)),
                None => Err(SSHDLogError::IpParseError),
            },
        },
    }
}

/// Reads the remote address that the line names, if it names one.
pub fn parse_ip_address(patterns: &LogPatterns, input: &str) -> (res: Result<
    Option<IpAddress>,
    SSHDLogError,
>)
    ensures
        res == spec_parse_ip_address(input@),
{
    proof {
        use_type_invariant(patterns);
    }
    let v4 = captures(&patterns.ipv4, input);
    match address_from_captures(&v4) {
        Err(e) => Err(e),
        Ok(Some(addr)) => Ok(Some(addr)),
        Ok(None) => {
            let v6 = captures(&patterns.ipv6, input);
            address_from_captures(&v6)
        },
    }
}

/// The port that a search with the port pattern stands for: none where
/// it found nothing; else its group 1, which must be a port number.
pub open spec fn port_in(groups: Option<Seq<Option<Seq<char>>>>) -> Result<
    Option<u16>,
    SSHDLogError,
> {
    match groups {
        None => Ok(None),
        Some(g) => match group(g, 1) {
            None => Err(SSHDLogError::PortParseError),
            Some(text) => match spec_parse_u16(text) {
                Some(port) => Ok(Some(port)),
                None => Err(SSHDLogError::PortParseError),
            },
        },
    }
}

pub open spec fn spec_parse_port(input: Seq<char>) -> Result<Option<u16>, SSHDLogError> {
    port_in(capture_groups(PORT_REGEX_STR@, input))
}

/// Turns a search with the port pattern into a port.
pub fn port_from_captures(groups: &Captured) -> (res: Result<Option<u16>, SSHDLogError>)
    ensures
        res == port_in(groups.deep_view()),
{
    match groups {
        None => Ok(None),
        Some(g) => match group_at(g, 1) {
            None => Err(SSHDLogError::PortParseError),
            Some(text) => match parse_u16(text) {
                Some(port) => Ok(Some(port)),
                None => Err(SSHDLogError::PortParseError),
            },
        },
    }
}

/// Reads the remote port that the line names, if it names one.
pub fn parse_port(patterns: &LogPatterns, input: &str) -> (res: Result<Option<u16>, SSHDLogError>)
    ensures
        res == spec_parse_port(input@),
{
    proof {
        use_type_invariant(patterns);
    }
    let groups = captures(&patterns.port, input);
    port_from_captures(&groups)
}

} // verus!
