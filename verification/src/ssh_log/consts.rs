//! The patterns that pick the fields out of a line of the SSH daemon's
//! log.

use crate::pattern::{compile, compiled_from, compiles};
use regex::Regex;
use vstd::prelude::*;

verus! {

pub const REGEX_STR: &'static str =
    r"^\w{3}\s\d{1,2}\s\d{2}:\d{2}:\d{2}\s[\w\d]+\s[\w\-_]+\[\d+\]:\s.*\n?$";

pub const DATE_REGEX_STR: &'static str = r"^\w{3}\s\d{1,2}\s\d{2}:\d{2}:\d{2}";

pub const HOSTNAME_REGEX_STR: &'static str = r"^\w{3}\s\d{1,2}\s\d{2}:\d{2}:\d{2}\s([\w\d]+)";

pub const LOG_ID_REGEX_STR: &'static str = r"\w+\[(\d+)\]";

pub const USERNAME_REGEX_STR: &'static str = r"user ([\w\d]+)";

pub const IPV4_REGEX_STR: &'static str = r"(\d{1,3}\.\d{1,3}\.\d{1,3}\.\d{1,3}(\\\d{1,2})?)";

pub const IPV6_REGEX_STR: &'static str =
    r"(((([0-9A-Fa-f]{1,4}:){7}([0-9A-Fa-f]{1,4}|:))|(([0-9A-Fa-f]{1,4}:){6}(:[0-9A-Fa-f]{1,4}|((25[0-5]|2[0-4][0-9]|1[0-9][0-9]|[1-9]?[0-9])(\.(25[0-5]|2[0-4][0-9]|1[0-9][0-9]|[1-9]?[0-9])){3})|:))|(([0-9A-Fa-f]{1,4}:){5}(((:[0-9A-Fa-f]{1,4}){1,2})|:((25[0-5]|2[0-4][0-9]|1[0-9][0-9]|[1-9]?[0-9])(\.(25[0-5]|2[0-4][0-9]|1[0-9][0-9]|[1-9]?[0-9])){3})|:))|(([0-9A-Fa-f]{1,4}:){4}(((:[0-9A-Fa-f]{1,4}){1,3})|((:[0-9A-Fa-f]{1,4})?:((25[0-5]|2[0-4][0-9]|1[0-9][0-9]|[1-9]?[0-9])(\.(25[0-5]|2[0-4][0-9]|1[0-9][0-9]|[1-9]?[0-9])){3}))|:))|(([0-9A-Fa-f]{1,4}:){3}(((:[0-9A-Fa-f]{1,4}){1,4})|((:[0-9A-Fa-f]{1,4}){0,2}:((25[0-5]|2[0-4][0-9]|1[0-9][0-9]|[1-9]?[0-9])(\.(25[0-5]|2[0-4][0-9]|1[0-9][0-9]|[1-9]?[0-9])){3}))|:))|(([0-9A-Fa-f]{1,4}:){2}(((:[0-9A-Fa-f]{1,4}){1,5})|((:[0-9A-Fa-f]{1,4}){0,3}:((25[0-5]|2[0-4][0-9]|1[0-9][0-9]|[1-9]?[0-9])(\.(25[0-5]|2[0-4][0-9]|1[0-9][0-9]|[1-9]?[0-9])){3}))|:))|(([0-9A-Fa-f]{1,4}:){1}(((:[0-9A-Fa-f]{1,4}){1,6})|((:[0-9A-Fa-f]{1,4}){0,4}:((25[0-5]|2[0-4][0-9]|1[0-9][0-9]|[1-9]?[0-9])(\.(25[0-5]|2[0-4][0-9]|1[0-9][0-9]|[1-9]?[0-9])){3}))|:))|(:(((:[0-9A-Fa-f]{1,4}){1,7})|((:[0-9A-Fa-f]{1,4}){0,5}:((25[0-5]|2[0-4][0-9]|1[0-9][0-9]|[1-9]?[0-9])(\.(25[0-5]|2[0-4][0-9]|1[0-9][0-9]|[1-9]?[0-9])){3}))|:)))(%.+)?)";

pub const PORT_REGEX_STR: &'static str = r"(?i)port (\d+)";

pub const INVALID_PASSWORD_REGEX_STR: &'static str =
    r"(?i)(failed password|authentication failure)";

pub const INVALID_USER_REGEX_STR: &'static str = r"(?i)(invalid user)";

/// The patterns that the log reader searches with, compiled once.
pub struct LogPatterns {
    pub(crate) log: Regex,
    pub(crate) date: Regex,
    pub(crate) hostname: Regex,
    pub(crate) log_id: Regex,
    pub(crate) username: Regex,
    pub(crate) ipv4: Regex,
    pub(crate) ipv6: Regex,
    pub(crate) port: Regex,
}

/// The compiled patterns, one for the whole line and one for each
/// field.
pub struct LogPatternsView {
    pub log: Regex,
    pub date: Regex,
    pub hostname: Regex,
    pub log_id: Regex,
    pub username: Regex,
    pub ipv4: Regex,
    pub ipv6: Regex,
    pub port: Regex,
}

impl LogPatternsView {
    /// Whether each pattern is what the regex engine makes of the text
    /// for its field.
    pub open spec fn is_compiled(self) -> bool {
        &&& compiled_from(self.log, REGEX_STR@)
        &&& compiled_from(self.date, DATE_REGEX_STR@)
        &&& compiled_from(self.hostname, HOSTNAME_REGEX_STR@)
        &&& compiled_from(self.log_id, LOG_ID_REGEX_STR@)
        &&& compiled_from(self.username, USERNAME_REGEX_STR@)
        &&& compiled_from(self.ipv4, IPV4_REGEX_STR@)
        &&& compiled_from(self.ipv6, IPV6_REGEX_STR@)
        &&& compiled_from(self.port, PORT_REGEX_STR@)
    }
}

impl View for LogPatterns {
    type V = LogPatternsView;

    closed spec fn view(&self) -> LogPatternsView {
        LogPatternsView {
            log: self.log,
            date: self.date,
            hostname: self.hostname,
            log_id: self.log_id,
            username: self.username,
            ipv4: self.ipv4,
            ipv6: self.ipv6,
            port: self.port,
        }
    }
}

impl LogPatterns {
    #[verifier::type_invariant]
    pub(crate) open spec fn compiled_from_the_log_patterns(self) -> bool {
        &&& compiled_from(self.log, REGEX_STR@)
        &&& compiled_from(self.date, DATE_REGEX_STR@)
        &&& compiled_from(self.hostname, HOSTNAME_REGEX_STR@)
        &&& compiled_from(self.log_id, LOG_ID_REGEX_STR@)
        &&& compiled_from(self.username, USERNAME_REGEX_STR@)
        &&& compiled_from(self.ipv4, IPV4_REGEX_STR@)
        &&& compiled_from(self.ipv6, IPV6_REGEX_STR@)
        &&& compiled_from(self.port, PORT_REGEX_STR@)
    }

    /// Whether the regex engine takes every pattern text of the log
    /// reader.
    pub open spec fn all_compile() -> bool {
        &&& compiles(REGEX_STR@)
        &&& compiles(DATE_REGEX_STR@)
        &&& compiles(HOSTNAME_REGEX_STR@)
        &&& compiles(LOG_ID_REGEX_STR@)
        &&& compiles(USERNAME_REGEX_STR@)
        &&& compiles(IPV4_REGEX_STR@)
        &&& compiles(IPV6_REGEX_STR@)
        &&& compiles(PORT_REGEX_STR@)
    }

    /// Compiles the patterns. They are handed out exactly where the
    /// regex engine takes every text, and are then the patterns compiled
    /// from the pattern texts of this module, each for its field.
    pub fn new() -> (r: Option<LogPatterns>)
        ensures
            r is Some <==> Self::all_compile(),
            r matches Some(patterns) ==> patterns@.is_compiled(),
    {
        let log = match compile(REGEX_STR) {
            Some(re) => re,
            None => {
                return None;
            },
        };
        let date = match compile(DATE_REGEX_STR) {
            Some(re) => re,
            None => {
                return None;
            },
        };
        let hostname = match compile(HOSTNAME_REGEX_STR) {
            Some(re) => re,
            None => {
                return None;
            },
        };
        let log_id = match compile(LOG_ID_REGEX_STR) {
            Some(re) => re,
            None => {
                return None;
            },
        };
        let username = match compile(USERNAME_REGEX_STR) {
            Some(re) => re,
            None => {
                return None;
            },
        };
        let ipv4 = match compile(IPV4_REGEX_STR) {
            Some(re) => re,
            None => {
                return None;
            },
        };
        let ipv6 = match compile(IPV6_REGEX_STR) {
            Some(re) => re,
            None => {
                return None;
            },
        };
        let port = match compile(PORT_REGEX_STR) {
            Some(re) => re,
            None => {
                return None;
            },
        };
        Some(LogPatterns { log, date, hostname, log_id, username, ipv4, ipv6, port })
    }
}

} // verus!
