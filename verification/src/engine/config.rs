//! What the engine is told to read: one entry per log file.

use crate::net::IpAddress;
use crate::pattern::{compile, compiled_from, compiles, pattern_text, source_of};
use regex::Regex;
use vstd::prelude::*;
use vstd::std_specs::cmp::PartialEqSpecImpl;

verus! {

/// The configuration: the log files to read, in order.
#[derive(Debug)]
pub struct Config(pub Vec<LogConfig>);

/// One log file as the configuration describes it.
#[derive(Debug)]
pub struct LogConfig {
    pub log_location: String,
    pub ip_regex: String,
    pub title: String,
    pub ignore_ips: Option<Vec<String>>,
    pub conditions: Vec<LogCondition>,
}

/// A condition under which an address is banned, and for how long.
#[derive(Debug)]
pub struct LogCondition {
    pub regex_condition: String,
    pub ban_time: u64,
}

/// One log file, ready to be read: its canonical path and the compiled
/// pattern that finds addresses in its lines.
#[derive(Debug)]
pub struct CompiledConfig {
    pub log_location: String,
    pub ip_regex: Regex,
    pub title: String,
    pub ignore_ips: Vec<IpAddress>,
}

/// Why an entry of the configuration cannot be used.
#[derive(Debug)]
pub enum ConfigError {
    /// The regex engine refuses the entry's address pattern, which is
    /// this text.
    InvalidPattern(String),
}

impl CompiledConfig {
    /// Compiles an entry whose log file has the canonical path
    /// `log_location`. The entry is usable exactly where the regex
    /// engine takes its address pattern; where it does not, the error
    /// holds the pattern. The list of ignored addresses starts empty.
    pub fn try_from(value: LogConfig, log_location: String) -> (res: Result<
        CompiledConfig,
        ConfigError,
    >)
        ensures
            res is Ok <==> compiles(value.ip_regex@),
            res matches Ok(compiled) ==> {
                &&& compiled.log_location == log_location
                &&& compiled.title == value.title
                &&& compiled_from(compiled.ip_regex, value.ip_regex@)
                &&& compiled.ignore_ips@.len() == 0
            },
            res matches Err(ConfigError::InvalidPattern(pattern)) ==> pattern == value.ip_regex,
    {
        match compile(value.ip_regex.as_str()) {
            Some(ip_regex) => Ok(
                CompiledConfig {
                    log_location,
                    ip_regex,
                    title: value.title,
                    ignore_ips: Vec::new(),
                },
            ),
            None => Err(ConfigError::InvalidPattern(value.ip_regex)),
        }
    }

    /// The text of the address pattern.
    pub fn ip_pattern(&self) -> (text: &str)
        ensures
            text@ == pattern_text(self.ip_regex),
    {
        source_of(&self.ip_regex)
    }
}

impl PartialEq for CompiledConfig {
    /// Two entries are the same where they read the same file under the
    /// same title.
    fn eq(&self, other: &Self) -> (same: bool) {
        self.log_location == other.log_location && self.title == other.title
    }
}

impl PartialEqSpecImpl for CompiledConfig {
    open spec fn obeys_eq_spec() -> bool {
        true
    }

    open spec fn eq_spec(&self, other: &Self) -> bool {
        self.log_location@ == other.log_location@ && self.title@ == other.title@
    }
}

} // verus!
