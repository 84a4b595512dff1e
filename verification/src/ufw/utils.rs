//! The three patterns that pick a rule's columns out of one line of a
//! status report, and what each match means.

use crate::net::{parse_ip, spec_parse_ip};
use crate::pattern::{
    capture_groups, captures, compile, compiled_from, compiles, group, group_at,
};
use crate::text::{ascii_lowercase, equals_ignoring_ascii_case, parse_u16, spec_parse_u16};
use crate::ufw::ufw_status::{
    NetworkProtocol, UFWAction, UFWIpRuleSpecification, UFWPortRule, UFWPortRuleSpecification,
    UFWRuleDirection,
};
use regex::Regex;
use vstd::prelude::*;

verus! {

/// Why a line gave no value for one column. The flag is `true` where the
/// line looked like a rule but could not be understood, and `false`
/// where the line is simply not a rule.
#[derive(Debug, Clone, Copy, PartialEq, Eq, Hash, Structural)]
pub enum UFWParseError {
    PortParseError(bool),
    ActionParseError(bool),
    IpParseError(bool),
}

pub const PORT_RULE_REGEX_STR: &'static str =
    r"(?i)^(\d+|anywhere)(?::(\d+))?(?:/(tcp|udp))?(?:\s\((v6)\))?";

pub const ACTION_RULE_REGEX_STR: &'static str = r"(?i)(deny|allow)\s(in|out)";

pub const IP_RULE_REGEX_STR: &'static str =
    r"(?i)(?:(?:deny|allow)\s(?:in|out))\s+(?:(anywhere) (?:\((v6)\))?|((?:\w+|:|\.)+))";

/// The three patterns, compiled once.
pub struct RulePatterns {
    port: Regex,
    action: Regex,
    address: Regex,
}

/// The three compiled patterns, one for each column.
pub struct RulePatternsView {
    pub port: Regex,
    pub action: Regex,
    pub address: Regex,
}

impl RulePatternsView {
    /// Whether each pattern is what the regex engine makes of the text
    /// for its column.
    pub open spec fn is_compiled(self) -> bool {
        &&& compiled_from(self.port, PORT_RULE_REGEX_STR@)
        &&& compiled_from(self.action, ACTION_RULE_REGEX_STR@)
        &&& compiled_from(self.address, IP_RULE_REGEX_STR@)
    }
}

impl View for RulePatterns {
    type V = RulePatternsView;

    closed spec fn view(&self) -> RulePatternsView {
        RulePatternsView { port: self.port, action: self.action, address: self.address }
    }
}

impl RulePatterns {
    #[verifier::type_invariant]
    spec fn compiled_from_the_rule_patterns(self) -> bool {
        self@.is_compiled()
    }

    /// Whether the regex engine takes all three pattern texts.
    pub open spec fn all_compile() -> bool {
        &&& compiles(PORT_RULE_REGEX_STR@)
        &&& compiles(ACTION_RULE_REGEX_STR@)
        &&& compiles(IP_RULE_REGEX_STR@)
    }

    /// Compiles the three patterns. They are handed out exactly where
    /// the regex engine takes all three texts, and are then the patterns
    /// compiled from [`PORT_RULE_REGEX_STR`], [`ACTION_RULE_REGEX_STR`]
    /// and [`IP_RULE_REGEX_STR`].
    pub fn new() -> (r: Option<RulePatterns>)
        ensures
            r is Some <==> Self::all_compile(),
            r matches Some(patterns) ==> patterns@.is_compiled(),
    {
        let port = match compile(PORT_RULE_REGEX_STR) {
            Some(re) => re,
            None => {
                return None;
            },
        };
        let action = match compile(ACTION_RULE_REGEX_STR) {
            Some(re) => re,
            None => {
                return None;
            },
        };
        let address = match compile(IP_RULE_REGEX_STR) {
            Some(re) => re,
            None => {
                return None;
            },
        };
        Some(RulePatterns { port, action, address })
    }
}

/// Whether two texts are the same but for the case of ASCII letters.
pub open spec fn same_ignoring_case(a: Seq<char>, b: Seq<char>) -> bool {
    ascii_lowercase(a) == ascii_lowercase(b)
}

/// The first port of a rule: a number, or the word `anywhere`.
pub open spec fn port_from_of(text: Seq<char>) -> Result<UFWPortRuleSpecification, UFWParseError> {
    match spec_parse_u16(text) {
        Some(v) => Ok(UFWPortRuleSpecification::Specific(v)),
        None => if same_ignoring_case(text, "anywhere"@) {
            Ok(UFWPortRuleSpecification::Anywhere)
        } else {
            Err(UFWParseError::PortParseError(true))
        },
    }
}

/// The last port of a range, where the line gives one: it must be a
/// number.
pub open spec fn port_to_of(text: Option<Seq<char>>) -> Result<
    Option<UFWPortRuleSpecification>,
    UFWParseError,
> {
    match text {
        None => Ok(None),
        Some(t) => match spec_parse_u16(t) {
            Some(v) => Ok(Some(UFWPortRuleSpecification::Specific(v))),
            None => Err(UFWParseError::PortParseError(true)),
        },
    }
}

/// The protocol that the line names; both where it names none.
pub open spec fn protocol_of(text: Option<Seq<char>>) -> NetworkProtocol {
    match text {
        None => NetworkProtocol::Both,
        Some(t) => if same_ignoring_case(t, "tcp"@) {
            NetworkProtocol::Tcp
        } else if same_ignoring_case(t, "udp"@) {
            NetworkProtocol::Udp
        } else {
            NetworkProtocol::Both
        },
    }
}

/// Whether the line marks the rule as one for IPv6.
pub open spec fn is_v6_marker(text: Option<Seq<char>>) -> bool {
    match text {
        None => false,
        Some(t) => same_ignoring_case(t, "v6"@),
    }
}

/// The port column that the groups of a port-pattern match stand for:
/// group 1 is the first port, group 2 the last port of a range, group 3
/// the protocol and group 4 the IPv6 marker.
pub open spec fn port_rule_of(groups: Seq<Option<Seq<char>>>) -> Result<
    UFWPortRule,
    UFWParseError,
> {
    match group(groups, 1) {
        None => Err(UFWParseError::PortParseError(true)),
        Some(from) => match port_from_of(from) {
            Err(e) => Err(e),
            Ok(port_from) => match port_to_of(group(groups, 2)) {
                Err(e) => Err(e),
                Ok(port_to) => Ok(
                    UFWPortRule {
                        protocol: protocol_of(group(groups, 3)),
                        port_from,
                        port_to,
                        is_v6: is_v6_marker(group(groups, 4)),
                    },
                ),
            },
        },
    }
}

/// The port column of a line: none, flagged `false`, where the port
/// pattern finds nothing in it; else what the match stands for.
pub open spec fn spec_parse_port_rule(input: Seq<char>) -> Result<UFWPortRule, UFWParseError> {
    match capture_groups(PORT_RULE_REGEX_STR@, input) {
        None => Err(UFWParseError::PortParseError(false)),
        Some(groups) => port_rule_of(groups),
    }
}

/// Turns the groups of a port-pattern match into a port column.
pub fn port_rule_from_captures(groups: &Vec<Option<String>>) -> (res: Result<
    UFWPortRule,
    UFWParseError,
>)
    ensures
        res == port_rule_of(groups.deep_view()),
{
    let from = match group_at(groups, 1) {
        Some(t) => t,
        None => {
            return Err(UFWParseError::PortParseError(true));
        },
    };
    let port_from = match parse_u16(from) {
        Some(v) => UFWPortRuleSpecification::Specific(v),
        None => if equals_ignoring_ascii_case(from, "anywhere") {
            UFWPortRuleSpecification::Anywhere
        } else {
            return Err(UFWParseError::PortParseError(true));
        },
    };
    let port_to = match group_at(groups, 2) {
        None => None,
        Some(t) => match parse_u16(t) {
            Some(v) => Some(UFWPortRuleSpecification::Specific(v)),
            None => {
                return Err(UFWParseError::PortParseError(true));
            },
        },
    };
    let protocol = match group_at(groups, 3) {
        None => NetworkProtocol::Both,
        Some(t) => if equals_ignoring_ascii_case(t, "tcp") {
            NetworkProtocol::Tcp
        } else if equals_ignoring_ascii_case(t, "udp") {
            NetworkProtocol::Udp
        } else {
            NetworkProtocol::Both
        },
    };
    let is_v6 = match group_at(groups, 4) {
        None => false,
        Some(t) => equals_ignoring_ascii_case(t, "v6"),
    };
    Ok(UFWPortRule { protocol, port_from, port_to, is_v6 })
}

/// Reads the port column of one line of a status report.
pub fn parse_port_rule(patterns: &RulePatterns, input: &str) -> (res: Result<
    UFWPortRule,
    UFWParseError,
>)
    ensures
        res == spec_parse_port_rule(input@),
{
    proof {
        use_type_invariant(patterns);
    }
    match captures(&patterns.port, input) {
        None => Err(UFWParseError::PortParseError(false)),
        Some(groups) => port_rule_from_captures(&groups),
    }
}

/// Which way the traffic of a rule flows: `true` for inbound.
pub open spec fn inbound_of(text: Option<Seq<char>>) -> Result<bool, UFWParseError> {
    match text {
        None => Err(UFWParseError::ActionParseError(true)),
        Some(t) => if same_ignoring_case(t, "in"@) {
            Ok(true)
        } else if same_ignoring_case(t, "out"@) {
            Ok(false)
        } else {
            Err(UFWParseError::ActionParseError(true))
        },
    }
}

/// The direction that the flag of [`inbound_of`] stands for.
pub open spec fn direction_of(inbound: bool) -> UFWRuleDirection {
    if inbound {
        UFWRuleDirection::In
    } else {
        UFWRuleDirection::Out
    }
}

/// The action that the groups of an action-pattern match stand for:
/// group 1 is `deny` or `allow`, group 2 is `in` or `out`.
pub open spec fn action_of(groups: Seq<Option<Seq<char>>>) -> Result<UFWAction, UFWParseError> {
    match inbound_of(group(groups, 2)) {
        Err(e) => Err(e),
        Ok(inbound) => match group(groups, 1) {
            None => Err(UFWParseError::ActionParseError(true)),
            Some(t) => if same_ignoring_case(t, "deny"@) {
                Ok(UFWAction::Deny(direction_of(inbound)))
            } else if same_ignoring_case(t, "allow"@) {
                Ok(UFWAction::Allow(direction_of(inbound)))
            } else {
                Err(UFWParseError::ActionParseError(true))
            },
        },
    }
}

/// The action column of a line. A line in which the action pattern
/// finds nothing is an error flagged `true`, like a match that cannot
/// be understood.
pub open spec fn spec_parse_ufw_action(input: Seq<char>) -> Result<UFWAction, UFWParseError> {
    match capture_groups(ACTION_RULE_REGEX_STR@, input) {
        None => Err(UFWParseError::ActionParseError(true)),
        Some(groups) => action_of(groups),
    }
}

/// Turns the groups of an action-pattern match into an action.
pub fn action_from_captures(groups: &Vec<Option<String>>) -> (res: Result<
    UFWAction,
    UFWParseError,
>)
    ensures
        res == action_of(groups.deep_view()),
{
    let inbound = match group_at(groups, 2) {
        None => {
            return Err(UFWParseError::ActionParseError(true));
        },
        Some(t) => if equals_ignoring_ascii_case(t, "in") {
            true
        } else if equals_ignoring_ascii_case(t, "out") {
            false
        } else {
            return Err(UFWParseError::ActionParseError(true));
        },
    };
    let direction = if inbound {
        UFWRuleDirection::In
    } else {
        UFWRuleDirection::Out
    };
    match group_at(groups, 1) {
        None => Err(UFWParseError::ActionParseError(true)),
        Some(t) => if equals_ignoring_ascii_case(t, "deny") {
            Ok(UFWAction::Deny(direction))
        } else if equals_ignoring_ascii_case(t, "allow") {
            Ok(UFWAction::Allow(direction))
        } else {
            Err(UFWParseError::ActionParseError(true))
        },
    }
}

/// Reads the action column of one line of a status report.
pub fn parse_ufw_action(patterns: &RulePatterns, input: &str) -> (res: Result<
    UFWAction,
    UFWParseError,
>)
    ensures
        res == spec_parse_ufw_action(input@),
{
    proof {
        use_type_invariant(patterns);
    }
    match captures(&patterns.action, input) {
        None => Err(UFWParseError::ActionParseError(true)),
        Some(groups) => action_from_captures(&groups),
    }
}

/// The address that the groups of an address-pattern match stand for.
/// Group 3 is a token: the word `anywhere`, in any letter case, which
/// stands for every address, or else an internet address. Without a
/// token, group 1 must be the word `anywhere`, and group 2, where it is
/// there, the IPv6 marker.
pub open spec fn address_of(groups: Seq<Option<Seq<char>>>) -> Result<
    UFWIpRuleSpecification,
    UFWParseError,
> {
    match group(groups, 3) {
        Some(token) => if same_ignoring_case(token, "anywhere"@) {
            Ok(UFWIpRuleSpecification::Anywhere(false))
        } else {
            match spec_parse_ip(token) {
                Some(addr) => Ok(UFWIpRuleSpecification::Specific(addr)),
                None => Err(UFWParseError::IpParseError(true)),
            }
        },
        None => match group(groups, 1) {
            None => Err(UFWParseError::IpParseError(true)),
            Some(word) => if !same_ignoring_case(word, "anywhere"@) {
                Err(UFWParseError::IpParseError(true))
            } else {
                match group(groups, 2) {
                    None => Ok(UFWIpRuleSpecification::Anywhere(false)),
                    Some(marker) => if same_ignoring_case(marker, "v6"@) {
                        Ok(UFWIpRuleSpecification::Anywhere(true))
                    } else {
                        Err(UFWParseError::IpParseError(true))
                    },
                }
            },
        },
    }
}

/// The address column of a line. A line in which the address pattern
/// finds nothing is an error flagged `true`.
pub open spec fn spec_parse_ufw_ip(input: Seq<char>) -> Result<
    UFWIpRuleSpecification,
    UFWParseError,
> {
    match capture_groups(IP_RULE_REGEX_STR@, input) {
        None => Err(UFWParseError::IpParseError(true)),
        Some(groups) => address_of(groups),
    }
}

/// Turns the groups of an address-pattern match into an address.
pub fn address_from_captures(groups: &Vec<Option<String>>) -> (res: Result<
    UFWIpRuleSpecification,
    UFWParseError,
>)
    ensures
        res == address_of(groups.deep_view()),
{
    match group_at(groups, 3) {
        Some(token) => if equals_ignoring_ascii_case(token, "anywhere") {
            Ok(UFWIpRuleSpecification::Anywhere(false))
        } else {
            match parse_ip(token) {
                Some(addr) => Ok(UFWIpRuleSpecification::Specific(addr)),
                None => Err(UFWParseError::IpParseError(true)),
            }
        },
        None => match group_at(groups, 1) {
            None => Err(UFWParseError::IpParseError(true)),
            Some(word) => if !equals_ignoring_ascii_case(word, "anywhere") {
                Err(UFWParseError::IpParseError(true))
            } else {
                match group_at(groups, 2) {
                    None => Ok(UFWIpRuleSpecification::Anywhere(false)),
                    Some(marker) => if equals_ignoring_ascii_case(marker, "v6") {
                        Ok(UFWIpRuleSpecification::Anywhere(true))
                    } else {
                        Err(UFWParseError::IpParseError(true))
                    },
                }
            },
        },
    }
}

/// Reads the address column of one line of a status report.
pub fn parse_ufw_ip(patterns: &RulePatterns, input: &str) -> (res: Result<
    UFWIpRuleSpecification,
    UFWParseError,
>)
    ensures
        res == spec_parse_ufw_ip(input@),
{
    proof {
        use_type_invariant(patterns);
    }
    match captures(&patterns.address, input) {
        None => Err(UFWParseError::IpParseError(true)),
        Some(groups) => address_from_captures(&groups),
    }
}

} // verus!
