//! Lines of the web server's access log as structured values.

use crate::net::{parse_ip, spec_parse_ip, IpAddress};
use crate::pattern::{
    capture_groups, captures, compile, compiled_from, compiles, group, group_at,
};
use crate::text::{all_digits, decimal_value, parse_usize, spec_parse_usize};
use crate::time::{instant_of, parse_instant, Timestamp};
use http::{Method, StatusCode};
use regex::Regex;
use std::str::FromStr;
use vstd::prelude::*;

verus! {

pub const NGINX_LOG_REGEX_STR: &'static str =
    r#"^([\w\.:]+)\s-\s([-\w\.]+)\s\[(.*)\]\s"(\w+)\s([\w\./-]+)\s([\w/\.]+)"\s(\d+)\s(\d+)\s"(.*)"\s"(.*)"$"#;

/// The format of the time in an access-log line.
pub const NGINX_TIME_FORMAT: &'static str = "%d/%b/%Y:%H:%M:%S%.3f %z";

/// The pattern of an access-log line, compiled once.
pub struct NginxPatterns {
    log: Regex,
}

impl View for NginxPatterns {
    type V = Regex;

    /// The compiled pattern of a line.
    closed spec fn view(&self) -> Regex {
        self.log
    }
}

impl NginxPatterns {
    #[verifier::type_invariant]
    spec fn compiled_from_the_line_pattern(self) -> bool {
        compiled_from(self@, NGINX_LOG_REGEX_STR@)
    }

    /// Compiles the pattern. It is handed out exactly where the regex
    /// engine takes the text, and is then the pattern compiled from
    /// [`NGINX_LOG_REGEX_STR`].
    pub fn new() -> (r: Option<NginxPatterns>)
        ensures
            r is Some <==> compiles(NGINX_LOG_REGEX_STR@),
            r matches Some(patterns) ==> compiled_from(patterns@, NGINX_LOG_REGEX_STR@),
    {
        match compile(NGINX_LOG_REGEX_STR) {
            Some(log) => Some(NginxPatterns { log }),
            None => None,
        }
    }

    /// Whether a line is an access-log line.
    pub fn is_match(&self, line: &str) -> (found: bool)
        ensures
            found == capture_groups(NGINX_LOG_REGEX_STR@, line@).is_some(),
    {
        proof {
            use_type_invariant(self);
        }
        captures(&self.log, line).is_some()
    }
}

/// Why a line gives no record.
#[derive(Debug, Clone, Copy, PartialEq, Eq, Hash, Structural)]
pub enum NginxError {
    /// The line is no access-log line.
    LogParseError,
    /// The request method is no HTTP method.
    InvalidMethod,
    /// The status is no HTTP status code.
    InvalidStatusCode,
    /// The number of bytes sent is no number that fits.
    InvalidByteCount,
}

/// Whether a character may stand in an HTTP method: a letter, a digit,
/// or one of ``! # $ % & ' * + - . ^ _ ` | ~``.
pub open spec fn is_method_char(c: char) -> bool {
    ||| ('a' <= c && c <= 'z')
    ||| ('A' <= c && c <= 'Z')
    ||| ('0' <= c && c <= '9')
    ||| c == '!'
    ||| c == '#'
    ||| c == '$'
    ||| c == '%'
    ||| c == '&'
    ||| c == '\''
    ||| c == '*'
    ||| c == '+'
    ||| c == '-'
    ||| c == '.'
    ||| c == '^'
    ||| c == '_'
    ||| c == '`'
    ||| c == '|'
    ||| c == '~'
}

/// Whether a text is an HTTP method: one or more method characters.
pub open spec fn is_method(text: Seq<char>) -> bool {
    text.len() > 0 && forall|i: int| 0 <= i < text.len() ==> is_method_char(#[trigger] text[i])
}

/// The HTTP status code that a text denotes: three ASCII digits, the
/// first of which is not zero.
pub open spec fn status_code_of(text: Seq<char>) -> Option<u16> {
    if text.len() == 3 && all_digits(text) && text[0] != '0' {
        Some(decimal_value(text) as u16)
    } else {
        None
    }
}

/// `Method::from_str`, then `Method::as_str`: accepts a text exactly
/// where it is an HTTP method, and hands the same text back.
#[verifier::external_body]
fn method_from_str(text: &str) -> (r: Option<String>)
    ensures
        r is Some <==> is_method(text@),
        r matches Some(m) ==> m@ == text@,
{
    Method::from_str(text).ok().map(|m| m.as_str().to_string())
}

/// `StatusCode::from_str`, then `StatusCode::as_u16`: the status code
/// that a text of three digits denotes, from 100 to 999.
#[verifier::external_body]
fn status_from_str(text: &str) -> (r: Option<u16>)
    ensures
        r == status_code_of(text@),
{
    StatusCode::from_str(text).ok().map(|s| s.as_u16())
}

/// One request, as the access log records it.
#[derive(Debug)]
pub struct NginxLog {
    ip_address: IpAddress,
    date_time: Timestamp,
    path: String,
    status: u16,
    http_method: String,
    bytes_sent: usize,
    user_agent: String,
    http_version: String,
}

/// The fields of a record, as plain values.
pub struct NginxLogView {
    pub ip_address: IpAddress,
    pub date_time: Timestamp,
    pub path: Seq<char>,
    pub status: u16,
    pub http_method: Seq<char>,
    pub bytes_sent: usize,
    pub user_agent: Seq<char>,
    pub http_version: Seq<char>,
}

impl View for NginxLog {
    type V = NginxLogView;

    closed spec fn view(&self) -> NginxLogView {
        NginxLogView {
            ip_address: self.ip_address,
            date_time: self.date_time,
            path: self.path@,
            status: self.status,
            http_method: self.http_method@,
            bytes_sent: self.bytes_sent,
            user_agent: self.user_agent@,
            http_version: self.http_version@,
        }
    }
}

/// The text of a group, empty where the group is not there.
pub open spec fn text_of(groups: Seq<Option<Seq<char>>>, i: int) -> Seq<char> {
    match group(groups, i) {
        Some(t) => t,
        None => Seq::empty(),
    }
}

/// The address that a match names: its group 1, where that is an
/// internet address.
pub open spec fn address_of_match(groups: Seq<Option<Seq<char>>>) -> Option<IpAddress> {
    match group(groups, 1) {
        Some(t) => spec_parse_ip(t),
        None => None,
    }
}

/// The time that a match names: its group 3, where that is a time in
/// the format of the access log.
pub open spec fn time_of_match(groups: Seq<Option<Seq<char>>>) -> Option<Timestamp> {
    match group(groups, 3) {
        Some(t) => instant_of(t, NGINX_TIME_FORMAT@),
        None => None,
    }
}

/// Whether a line can be read at all: it is no access-log line, or it
/// is one whose address and time are an address and a time. On any
/// other line the reader has nothing to return.
pub open spec fn can_be_read(line: Seq<char>) -> bool {
    match capture_groups(NGINX_LOG_REGEX_STR@, line) {
        None => true,
        Some(groups) => address_of_match(groups) is Some && time_of_match(groups) is Some,
    }
}

/// The record that an address, a time and the remaining groups of a
/// match make: group 4 is the method, group 5 the path, group 6 the
/// protocol version, group 7 the status, group 8 the number of bytes
/// sent and group 10 the user agent. The method, the status and the
/// number are checked in this order, and the first that fails gives the
/// error.
pub open spec fn record_of(
    ip_address: IpAddress,
    date_time: Timestamp,
    groups: Seq<Option<Seq<char>>>,
) -> Result<NginxLogView, NginxError> {
    if !is_method(text_of(groups, 4)) {
        Err(NginxError::InvalidMethod)
    } else {
        match status_code_of(text_of(groups, 7)) {
            None => Err(NginxError::InvalidStatusCode),
            Some(status) => match spec_parse_usize(text_of(groups, 8)) {
                None => Err(NginxError::InvalidByteCount),
                Some(bytes_sent) => Ok(
                    NginxLogView {
                        ip_address,
                        date_time,
                        path: text_of(groups, 5),
                        status,
                        http_method: text_of(groups, 4),
                        bytes_sent,
                        user_agent: text_of(groups, 10),
                        http_version: text_of(groups, 6),
                    },
                ),
            },
        }
    }
}

/// What a line that can be read says.
pub open spec fn spec_nginx_log(line: Seq<char>) -> Result<NginxLogView, NginxError> {
    match capture_groups(NGINX_LOG_REGEX_STR@, line) {
        None => Err(NginxError::LogParseError),
        Some(groups) => record_of(
            address_of_match(groups)->0,
            time_of_match(groups)->0,
            groups,
        ),
    }
}

/// The text of a group as a string slice, empty where the group is not
/// there.
fn text_at(groups: &Vec<Option<String>>, i: usize) -> (t: &str)
    ensures
        t@ == text_of(groups.deep_view(), i as int),
{
    match group_at(groups, i) {
        Some(t) => t,
        None => {
            let nothing: &str = "";
            proof {
                reveal_strlit("");
                assert(nothing@ =~= Seq::<char>::empty());
            }
            nothing
        },
    }
}

impl NginxLog {
    /// Makes a record of an address, a time and the groups of a match.
    pub fn from_captures(
        ip_address: IpAddress,
        date_time: Timestamp,
        groups: &Vec<Option<String>>,
    ) -> (res: Result<NginxLog, NginxError>)
        ensures
            match record_of(ip_address, date_time, groups.deep_view()) {
                Ok(record) => res matches Ok(v) && v@ == record,
                Err(e) => res matches Err(x) && x == e,
            },
    {
        let http_method = match method_from_str(text_at(groups, 4)) {
            Some(m) => m,
            None => {
                return Err(NginxError::InvalidMethod);
            },
        };
        let path = text_at(groups, 5).to_owned();
        let http_version = text_at(groups, 6).to_owned();
        let status = match status_from_str(text_at(groups, 7)) {
            Some(s) => s,
            None => {
                return Err(NginxError::InvalidStatusCode);
            },
        };
        let bytes_sent = match parse_usize(text_at(groups, 8)) {
            Some(n) => n,
            None => {
                return Err(NginxError::InvalidByteCount);
            },
        };
        let user_agent = text_at(groups, 10).to_owned();
        Ok(
            NginxLog {
                bytes_sent,
                status,
                http_version,
                http_method,
                date_time,
                ip_address,
                path,
                user_agent,
            },
        )
    }

    /// Reads a line that can be read.
    pub fn new(patterns: &NginxPatterns, log: &str) -> (res: Result<NginxLog, NginxError>)
        requires
            can_be_read(log@),
        ensures
            match spec_nginx_log(log@) {
                Ok(record) => res matches Ok(v) && v@ == record,
                Err(e) => res matches Err(x) && x == e,
            },
    {
        proof {
            use_type_invariant(patterns);
        }
        let groups = match captures(&patterns.log, log) {
            Some(g) => g,
            None => {
                return Err(NginxError::LogParseError);
            },
        };
        let ip_address = parse_ip(group_at(&groups, 1).unwrap()).unwrap();
        let date_time = parse_instant(group_at(&groups, 3).unwrap(), NGINX_TIME_FORMAT).unwrap();
        Self::from_captures(ip_address, date_time, &groups)
    }

    /// Reads a line; `None` where the line cannot be read.
    pub fn try_new(patterns: &NginxPatterns, log: &str) -> (res: Option<
        Result<NginxLog, NginxError>,
    >)
        ensures
            res is Some <==> can_be_read(log@),
            res matches Some(read) ==> match spec_nginx_log(log@) {
                Ok(record) => read matches Ok(v) && v@ == record,
                Err(e) => read matches Err(x) && x == e,
            },
    {
        proof {
            use_type_invariant(patterns);
        }
        match captures(&patterns.log, log) {
            None => {},
            Some(groups) => {
                let address = match group_at(&groups, 1) {
                    Some(t) => parse_ip(t),
                    None => None,
                };
                let time = match group_at(&groups, 3) {
                    Some(t) => parse_instant(t, NGINX_TIME_FORMAT),
                    None => None,
                };
                if address.is_none() || time.is_none() {
                    return None;
                }
            },
        }
        Some(Self::new(patterns, log))
    }

    pub fn ip_address(&self) -> (v: IpAddress)
        ensures
            v == self@.ip_address,
    {
        self.ip_address
    }

    pub fn date_time(&self) -> (v: Timestamp)
        ensures
            v == self@.date_time,
    {
        self.date_time
    }

    pub fn path(&self) -> (v: &str)
        ensures
            v@ == self@.path,
    {
        self.path.as_str()
    }

    pub fn status(&self) -> (v: u16)
        ensures
            v == self@.status,
    {
        self.status
    }

    pub fn http_method(&self) -> (v: &str)
        ensures
            v@ == self@.http_method,
    {
        self.http_method.as_str()
    }

    pub fn bytes_sent(&self) -> (v: usize)
        ensures
            v == self@.bytes_sent,
    {
        self.bytes_sent
    }

    pub fn user_agent(&self) -> (v: &str)
        ensures
            v@ == self@.user_agent,
    {
        self.user_agent.as_str()
    }

    pub fn http_version(&self) -> (v: &str)
        ensures
            v@ == self@.http_version,
    {
        self.http_version.as_str()
    }
}

} // verus!
