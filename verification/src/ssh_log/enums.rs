use vstd::prelude::*;

verus! {

/// Returned when there was an error parsing the SSHD log
#[derive(Debug, Clone, Copy, PartialEq, Eq, Hash, Structural)]
pub enum SSHDLogError {
    LogParseError,
    TimeParseError,
    HostnameParseError,
    IdParseError,
    IpParseError,
    PortParseError,
    Unknown,
}

/// Denotes what kind of log this SSHD log is
#[derive(Debug, PartialEq)]
pub enum SSHDLogType {
    InvalidPassword,
    InvalidUser,
    ConnectionClosed,
    ConnectionSuccessful(String),
}

} // verus!
