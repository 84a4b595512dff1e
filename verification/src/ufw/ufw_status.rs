//! The firewall's rules as structured values, and the set of rules that
//! a status report lists.

use crate::net::IpAddress;
use crate::text::{lemma_split_nonempty, split, split_on, string_from_utf8};
use crate::ufw::utils::{
    parse_port_rule, parse_ufw_action, parse_ufw_ip, spec_parse_port_rule, spec_parse_ufw_action,
    spec_parse_ufw_ip, RulePatterns, UFWParseError,
};
use vstd::prelude::*;
use vstd::utf8::{decode_utf8, valid_utf8};

verus! {

/// Why a status report could not be turned into rules.
#[derive(Debug, Clone, Copy, PartialEq, Eq, Hash, Structural)]
pub enum UFWStatusError {
    ErrorParsingStatus,
    ErrorParsingAction,
    ErrorParsingIp,
}

/// One end of a port range: a port number, or any port.
#[derive(Debug, Clone, Copy, PartialEq, Eq, Hash, Structural)]
pub enum UFWPortRuleSpecification {
    Anywhere,
    Specific(u16),
}

/// The address a rule applies to.
#[derive(Debug, Clone, Copy, PartialEq, Eq, Hash, Structural)]
pub enum UFWIpRuleSpecification {
    /// Any address; `true` where the rule is for IPv6.
    Anywhere(bool),
    Specific(IpAddress),
}

/// The protocol that a rule is for.
#[derive(Debug, Clone, Copy, PartialEq, Eq, Hash, Structural)]
pub enum NetworkProtocol {
    Tcp,
    Udp,
    Both,
}

/// Which way the traffic of a rule flows.
#[derive(Debug, Clone, Copy, PartialEq, Eq, Hash, Structural)]
pub enum UFWRuleDirection {
    In,
    Out,
}

/// What a rule does with the traffic it is for.
#[derive(Debug, Clone, Copy, PartialEq, Eq, Hash, Structural)]
pub enum UFWAction {
    Allow(UFWRuleDirection),
    Deny(UFWRuleDirection),
}

/// The port column of a rule.
#[derive(Debug, Clone, Copy, PartialEq, Eq, Hash, Structural)]
pub struct UFWPortRule {
    pub protocol: NetworkProtocol,
    pub port_from: UFWPortRuleSpecification,
    pub port_to: Option<UFWPortRuleSpecification>,
    pub is_v6: bool,
}

/// One rule of the firewall: ports, action and address.
#[derive(Debug, Clone, Copy, PartialEq, Eq, Hash, Structural)]
pub struct UFWRule {
    pub port: UFWPortRule,
    pub action: UFWAction,
    pub ip_address: UFWIpRuleSpecification,
}

/// What one line of a status report contributes.
#[derive(Debug, Clone, Copy, PartialEq, Eq, Hash, Structural)]
pub enum LineOutcome {
    /// The line is no rule: a header, a blank or a summary line.
    Skipped,
    /// The line is this rule.
    Rule(UFWRule),
    /// The line looks like a rule and cannot be understood.
    Failed(UFWStatusError),
}

/// What a line contributes. The three columns are read in turn: ports,
/// action, address. A column error flagged `true` fails the line with
/// that column's error; any other column error leaves the line out.
pub open spec fn line_outcome(line: Seq<char>) -> LineOutcome {
    match spec_parse_port_rule(line) {
        Err(UFWParseError::PortParseError(true)) => LineOutcome::Failed(
            UFWStatusError::ErrorParsingStatus,
        ),
        Err(_) => LineOutcome::Skipped,
        Ok(port) => match spec_parse_ufw_action(line) {
            Err(UFWParseError::ActionParseError(true)) => LineOutcome::Failed(
                UFWStatusError::ErrorParsingAction,
            ),
            Err(_) => LineOutcome::Skipped,
            Ok(action) => match spec_parse_ufw_ip(line) {
                Err(UFWParseError::IpParseError(true)) => LineOutcome::Failed(
                    UFWStatusError::ErrorParsingIp,
                ),
                Err(_) => LineOutcome::Skipped,
                Ok(ip_address) => LineOutcome::Rule(UFWRule { port, action, ip_address }),
            },
        },
    }
}

/// The rules that a run of lines lists, or the error of the first line
/// that fails.
pub open spec fn rules_of_lines(lines: Seq<Seq<char>>) -> Result<Set<UFWRule>, UFWStatusError>
    decreases lines.len(),
{
    if lines.len() == 0 {
        Ok(Set::empty())
    } else {
        match rules_of_lines(lines.drop_last()) {
            Err(e) => Err(e),
            Ok(rules) => match line_outcome(lines.last()) {
                LineOutcome::Skipped => Ok(rules),
                LineOutcome::Rule(rule) => Ok(rules.insert(rule)),
                LineOutcome::Failed(e) => Err(e),
            },
        }
    }
}

/// The rules that a report's text lists, line by line.
pub open spec fn rules_of_text(text: Seq<char>) -> Result<Set<UFWRule>, UFWStatusError> {
    rules_of_lines(split(text, '\n'))
}

/// The rules that a report lists. Bytes that are not UTF-8 are a status
/// error.
pub open spec fn rules_of_report(stdout: Seq<u8>) -> Result<Set<UFWRule>, UFWStatusError> {
    if valid_utf8(stdout) {
        rules_of_text(decode_utf8(stdout))
    } else {
        Err(UFWStatusError::ErrorParsingStatus)
    }
}

/// Once a line has failed, the lines after it change nothing.
pub proof fn lemma_failure_is_final(lines: Seq<Seq<char>>, n: int)
    requires
        0 <= n <= lines.len(),
        rules_of_lines(lines.take(n)) is Err,
    ensures
        rules_of_lines(lines) == rules_of_lines(lines.take(n)),
    decreases lines.len() - n,
{
    if n == lines.len() {
        assert(lines.take(n) =~= lines);
    } else {
        assert(lines.take(n + 1).drop_last() =~= lines.take(n));
        lemma_failure_is_final(lines, n + 1);
    }
}

/// The rules of two runs of lines, one after the other: the first
/// failure of either, else every rule of both.
pub proof fn lemma_rules_of_concat(a: Seq<Seq<char>>, b: Seq<Seq<char>>)
    ensures
        rules_of_lines(a + b) == match rules_of_lines(a) {
            Err(e) => Err(e),
            Ok(first) => match rules_of_lines(b) {
                Err(e) => Err(e),
                Ok(second) => Ok(first.union(second)),
            },
        },
    decreases b.len(),
{
    if b.len() == 0 {
        assert(a + b =~= a);
        if let Ok(first) = rules_of_lines(a) {
            assert(first.union(Set::empty()) =~= first);
        }
    } else {
        assert((a + b).drop_last() =~= a + b.drop_last());
        assert((a + b).last() == b.last());
        lemma_rules_of_concat(a, b.drop_last());
        if let Ok(first) = rules_of_lines(a) {
            if let Ok(second) = rules_of_lines(b.drop_last()) {
                if let LineOutcome::Rule(rule) = line_outcome(b.last()) {
                    assert(first.union(second).insert(rule) =~= first.union(second.insert(rule)));
                }
            }
        }
    }
}

/// The pieces of two texts joined by the separator are the pieces of
/// the first, then those of the second.
pub proof fn lemma_split_joined(a: Seq<char>, b: Seq<char>, sep: char)
    ensures
        split(a + seq![sep] + b, sep) == split(a, sep) + split(b, sep),
    decreases b.len(),
{
    let joined = a + seq![sep] + b;
    if b.len() == 0 {
        assert(joined.drop_last() =~= a);
        assert(split(b, sep) =~= seq![Seq::<char>::empty()]);
        assert(split(a, sep).push(Seq::<char>::empty()) =~= split(a, sep) + split(b, sep));
    } else {
        assert(joined.drop_last() =~= a + seq![sep] + b.drop_last());
        assert(joined.last() == b.last());
        lemma_split_joined(a, b.drop_last(), sep);
        lemma_split_nonempty(a, sep);
        lemma_split_nonempty(b.drop_last(), sep);
        let left = split(a, sep);
        let before = split(b.drop_last(), sep);
        if b.last() == sep {
            assert((left + before).push(Seq::<char>::empty()) =~= left + before.push(
                Seq::<char>::empty(),
            ));
        } else {
            assert((left + before).last() == before.last());
            assert((left + before).drop_last() =~= left + before.drop_last());
            assert((left + before.drop_last()).push(before.last().push(b.last())) =~= left
                + before.drop_last().push(before.last().push(b.last())));
        }
    }
}

/// A report that lists everything twice has the rules of the report
/// that lists it once: a rule that recurs is the same rule.
pub proof fn lemma_repeated_report(text: Seq<char>)
    ensures
        rules_of_text(text + seq!['\n'] + text) == rules_of_text(text),
{
    lemma_split_joined(text, text, '\n');
    let lines = split(text, '\n');
    lemma_rules_of_concat(lines, lines);
    if let Ok(rules) = rules_of_lines(lines) {
        assert(rules.union(rules) =~= rules);
    }
}

/// Reads one line of a status report.
pub fn read_line(patterns: &RulePatterns, line: &str) -> (r: LineOutcome)
    ensures
        r == line_outcome(line@),
{
    let port = match parse_port_rule(patterns, line) {
        Ok(port) => port,
        Err(UFWParseError::PortParseError(true)) => {
            return LineOutcome::Failed(UFWStatusError::ErrorParsingStatus);
        },
        Err(_) => {
            return LineOutcome::Skipped;
        },
    };
    let action = match parse_ufw_action(patterns, line) {
        Ok(action) => action,
        Err(UFWParseError::ActionParseError(true)) => {
            return LineOutcome::Failed(UFWStatusError::ErrorParsingAction);
        },
        Err(_) => {
            return LineOutcome::Skipped;
        },
    };
    let ip_address = match parse_ufw_ip(patterns, line) {
        Ok(ip_address) => ip_address,
        Err(UFWParseError::IpParseError(true)) => {
            return LineOutcome::Failed(UFWStatusError::ErrorParsingIp);
        },
        Err(_) => {
            return LineOutcome::Skipped;
        },
    };
    LineOutcome::Rule(UFWRule { port, action, ip_address })
}

/// The set of rules that a status report lists. A rule that the report
/// lists more than once is in the set once.
#[derive(Debug)]
pub struct UFWStatus {
    rules: Vec<UFWRule>,
}

impl View for UFWStatus {
    type V = Set<UFWRule>;

    closed spec fn view(&self) -> Set<UFWRule> {
        self.rules@.to_set()
    }
}

impl UFWStatus {
    #[verifier::type_invariant]
    spec fn no_rule_twice(self) -> bool {
        self.rules@.no_duplicates()
    }

    /// Reads the output of the status command. The result holds exactly
    /// the rules of [`rules_of_report`]; where a line fails, so does the
    /// whole report, with that line's error.
    pub fn new(stdout: Vec<u8>, patterns: &RulePatterns) -> (res: Result<Self, UFWStatusError>)
        ensures
            match rules_of_report(stdout@) {
                Ok(rules) => res matches Ok(status) && status@ == rules,
                Err(e) => res matches Err(x) && x == e,
            },
    {
        Self::parse_stdout(stdout, patterns)
    }

    fn parse_stdout(stdout: Vec<u8>, patterns: &RulePatterns) -> (res: Result<
        Self,
        UFWStatusError,
    >)
        ensures
            match rules_of_report(stdout@) {
                Ok(rules) => res matches Ok(status) && status@ == rules,
                Err(e) => res matches Err(x) && x == e,
            },
    {
        let status_str = match string_from_utf8(stdout) {
            Some(s) => s,
            None => {
                return Err(UFWStatusError::ErrorParsingStatus);
            },
        };
        let lines = split_on(status_str.as_str(), '\n');
        let ghost all = split(status_str@, '\n');
        let mut rules: Vec<UFWRule> = Vec::new();
        let mut i: usize = 0;
        assert(rules@.to_set() =~= Set::<UFWRule>::empty());
        assert(all.take(0) =~= Seq::<Seq<char>>::empty());
        while i < lines.len()
            invariant
                i <= lines.len(),
                all == lines.deep_view(),
                rules_of_report(stdout@) == rules_of_lines(all),
                rules@.no_duplicates(),
                rules_of_lines(all.take(i as int)) == Ok::<Set<UFWRule>, UFWStatusError>(
                    rules@.to_set(),
                ),
            decreases lines.len() - i,
        {
            proof {
                assert(all.take(i + 1).drop_last() =~= all.take(i as int));
                assert(all.take(i + 1).last() == lines@[i as int]@);
            }
            match read_line(patterns, lines[i]) {
                LineOutcome::Skipped => {},
                LineOutcome::Rule(rule) => {
                    insert_rule(&mut rules, rule);
                },
                LineOutcome::Failed(e) => {
                    proof {
                        assert(rules_of_lines(all.take(i + 1)) == Err::<
                            Set<UFWRule>,
                            UFWStatusError,
                        >(e));
                        lemma_failure_is_final(all, i + 1);
                    }
                    return Err(e);
                },
            }
            i += 1;
        }
        assert(all.take(i as int) =~= all);
        Ok(UFWStatus { rules })
    }

    /// The number of rules.
    pub fn len(&self) -> (n: usize)
        ensures
            n == self@.len(),
    {
        proof {
            use_type_invariant(self);
            self.rules@.unique_seq_to_set();
        }
        self.rules.len()
    }

    /// Whether the report lists this rule.
    pub fn contains(&self, rule: &UFWRule) -> (found: bool)
        ensures
            found == self@.contains(*rule),
    {
        position_of(&self.rules, rule).is_some()
    }

    /// The rules, each once, in the order in which the report first
    /// lists them.
    pub fn rules(&self) -> (rules: &Vec<UFWRule>)
        ensures
            rules@.no_duplicates(),
            rules@.to_set() == self@,
    {
        proof {
            use_type_invariant(self);
        }
        &self.rules
    }
}

/// Where a rule stands in a list of rules, if it is there.
fn position_of(rules: &Vec<UFWRule>, rule: &UFWRule) -> (at: Option<usize>)
    ensures
        at is Some <==> rules@.contains(*rule),
        at matches Some(i) ==> i < rules.len() && rules@[i as int] == *rule,
{
    let mut i: usize = 0;
    while i < rules.len()
        invariant
            i <= rules.len(),
            forall|j: int| 0 <= j < i ==> rules@[j] != *rule,
        decreases rules.len() - i,
    {
        if rules[i] == *rule {
            return Some(i);
        }
        i += 1;
    }
    None
}

/// Adds a rule to a list that holds no rule twice, unless it is there.
fn insert_rule(rules: &mut Vec<UFWRule>, rule: UFWRule)
    requires
        old(rules)@.no_duplicates(),
    ensures
        final(rules)@.no_duplicates(),
        final(rules)@.to_set() == old(rules)@.to_set().insert(rule),
{
    if position_of(rules, &rule).is_none() {
        proof {
            rules@.lemma_push_to_set_commute(rule);
        }
        rules.push(rule);
    } else {
        assert(rules@.to_set().insert(rule) =~= rules@.to_set());
    }
}

} // verus!
