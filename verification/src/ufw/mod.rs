//! The firewall as the engine sees it: where its command lives, and the
//! rules that its latest status report listed.

pub mod ufw_status;
pub mod utils;

use crate::text::string_from_utf8;
use crate::ufw::ufw_status::{rules_of_report, UFWRule, UFWStatus, UFWStatusError};
use crate::ufw::utils::RulePatterns;
use vstd::prelude::*;
use vstd::utf8::{decode_utf8, valid_utf8};

verus! {

/// Why the firewall could not be asked.
#[derive(Debug)]
pub enum UFWError {
    UFWNotInstalled,
    UFWCommandFailed,
    UFWPrivilegeError,
    UFWStatusError(UFWStatusError),
}

/// What a finished command left behind: whether it exited with success,
/// and what it wrote to its output and error streams.
#[derive(Debug)]
pub struct CommandOutput {
    pub success: bool,
    pub stdout: Vec<u8>,
    pub stderr: Vec<u8>,
}

impl CommandOutput {
    /// Whether the command succeeded and wrote nothing to its error
    /// stream.
    pub open spec fn is_clean(&self) -> bool {
        self.success && self.stderr@.len() == 0
    }
}

/// The firewall: where its command lives, and the rules of the latest
/// status report that was read.
#[derive(Debug)]
pub struct UFW {
    ufw_location: String,
    ufw_status: Option<UFWStatus>,
}

impl UFW {
    /// Where the firewall command lives.
    pub closed spec fn location(&self) -> Seq<char> {
        self.ufw_location@
    }

    /// The rules of the latest status report that was read, if any.
    pub closed spec fn latest(&self) -> Option<Set<UFWRule>> {
        match self.ufw_status {
            Some(status) => Some(status@),
            None => None,
        }
    }

    /// Takes the output of the command that looks for the firewall. The
    /// firewall counts as installed where that command ran clean and
    /// named a place, in UTF-8; no status has been read yet then.
    pub fn new(which: CommandOutput) -> (res: Result<UFW, UFWError>)
        ensures
            res is Ok <==> which.is_clean() && valid_utf8(which.stdout@) && decode_utf8(
                which.stdout@,
            ).len() > 0,
            res matches Ok(ufw) ==> ufw.location() == decode_utf8(which.stdout@)
                && ufw.latest() is None,
            res matches Err(e) ==> e is UFWNotInstalled,
    {
        match Self::check_status_ok(&which, UFWError::UFWNotInstalled) {
            Ok(()) => {},
            Err(e) => {
                return Err(e);
            },
        }
        let location = match string_from_utf8(which.stdout) {
            Some(s) => s,
            None => {
                return Err(UFWError::UFWNotInstalled);
            },
        };
        if location.as_str().is_empty() {
            return Err(UFWError::UFWNotInstalled);
        }
        Ok(UFW { ufw_location: location, ufw_status: None })
    }

    /// Takes the output of the verbose status command and keeps the
    /// rules it lists. A command that did not run clean is a command
    /// failure and is not parsed; a report that cannot be parsed fails
    /// with the parser's error. On failure the rules kept before stay.
    pub fn status(&mut self, output: CommandOutput, patterns: &RulePatterns) -> (res: Result<
        &UFWStatus,
        UFWError,
    >)
        ensures
            final(self).location() == old(self).location(),
            !output.is_clean() ==> {
                &&& res matches Err(e) && e is UFWCommandFailed
                &&& final(self).latest() == old(self).latest()
            },
            output.is_clean() ==> match rules_of_report(output.stdout@) {
                Ok(rules) => {
                    &&& res matches Ok(status) && status@ == rules
                    &&& final(self).latest() == Some(rules)
                },
                Err(x) => {
                    &&& res matches Err(e) && e == UFWError::UFWStatusError(x)
                    &&& final(self).latest() == old(self).latest()
                },
            },
    {
        match Self::check_status_ok(&output, UFWError::UFWCommandFailed) {
            Ok(()) => {},
            Err(e) => {
                return Err(e);
            },
        }
        let status = match UFWStatus::new(output.stdout, patterns) {
            Ok(status) => status,
            Err(e) => {
                return Err(UFWError::UFWStatusError(e));
            },
        };
        self.ufw_status = Some(status);
        Ok(self.ufw_status.as_ref().unwrap())
    }

    fn check_status_ok(output: &CommandOutput, err_to_throw: UFWError) -> (res: Result<
        (),
        UFWError,
    >)
        ensures
            res is Ok <==> output.is_clean(),
            res matches Err(e) ==> e == err_to_throw,
    {
        if !output.success || output.stderr.len() != 0 {
            return Err(err_to_throw);
        }
        Ok(())
    }

    /// The place that the firewall command was found at.
    pub fn ufw_location(&self) -> (place: &str)
        ensures
            place@ == self.location(),
    {
        self.ufw_location.as_str()
    }

    /// The latest status report that was read, if any.
    pub fn ufw_status(&self) -> (status: Option<&UFWStatus>)
        ensures
            status.is_some() == self.latest().is_some(),
            status matches Some(s) ==> Some(s@) == self.latest(),
    {
        self.ufw_status.as_ref()
    }
}

} // verus!
