//! Counting the remote addresses that the lines of a log name.

pub mod log;

use crate::net::IpAddress;
use crate::output_log::log::{
    lemma_room_after_one, one_entry_each, room_for, seen_once_more, RemoteEndpoint, StructuredLog,
};
use crate::ssh_log::consts::LogPatterns;
use crate::ssh_log::enums::SSHDLogError;
use crate::ssh_log::{spec_sshd_log, SSHDLog};
use crate::text::{split, split_on};
use vstd::prelude::*;

verus! {

/// What one line does to the tally in the year `year`: it counts for
/// the address it names, or for nothing, or it stops the count. A line
/// that is no log line, or whose address is none, counts for nothing,
/// and so does a log line that names no address. Any other failure
/// stops the count.
#[verifier::opaque]
pub open spec fn line_effect(line: Seq<char>, year: Seq<char>) -> Result<
    Option<IpAddress>,
    SSHDLogError,
> {
    match spec_sshd_log(line, year) {
        Ok(log) => Ok(log.remote_address),
        Err(SSHDLogError::LogParseError) => Ok(None),
        Err(SSHDLogError::IpParseError) => Ok(None),
        Err(e) => Err(e),
    }
}

/// Where a count over some lines ends.
pub struct TallyRun {
    /// The entries after the last line that was looked at.
    pub entries: Seq<RemoteEndpoint>,
    /// The number of lines that counted for an address.
    pub counted: nat,
    /// The failure that stopped the count, if one did.
    pub failure: Option<SSHDLogError>,
}

/// The count over `lines`, from the first on, starting from `entries`.
/// Once a line has stopped the count, the lines after it are not looked
/// at.
pub open spec fn tally_run(entries: Seq<RemoteEndpoint>, lines: Seq<Seq<char>>, year: Seq<char>)
    -> TallyRun
    decreases lines.len(),
{
    if lines.len() == 0 {
        TallyRun { entries, counted: 0, failure: None }
    } else {
        let before = tally_run(entries, lines.drop_last(), year);
        if before.failure is Some {
            before
        } else {
            match line_effect(lines.last(), year) {
                Err(e) => TallyRun { failure: Some(e), ..before },
                Ok(None) => before,
                Ok(Some(address)) => TallyRun {
                    entries: seen_once_more(before.entries, address),
                    counted: before.counted + 1,
                    failure: None,
                },
            }
        }
    }
}

/// Counts one line, written in the year `year`. Returns whether the
/// line counted for an address, or the failure that stops the count.
pub fn tally_line(
    tally: &mut StructuredLog,
    patterns: &LogPatterns,
    line: &str,
    year: &str,
) -> (res: Result<bool, SSHDLogError>)
    requires
        room_for(old(tally)@.entries, 1),
    ensures
        one_entry_each(final(tally)@.entries),
        match line_effect(line@, year@) {
            Err(e) => {
                &&& res == Err::<bool, SSHDLogError>(e)
                &&& final(tally)@.entries == old(tally)@.entries
                &&& final(tally)@.remote_endpoints == old(tally)@.remote_endpoints
            },
            Ok(None) => {
                &&& res == Ok::<bool, SSHDLogError>(false)
                &&& final(tally)@.entries == old(tally)@.entries
                &&& final(tally)@.remote_endpoints == old(tally)@.remote_endpoints
            },
            Ok(Some(address)) => {
                &&& res == Ok::<bool, SSHDLogError>(true)
                &&& final(tally)@.entries == seen_once_more(old(tally)@.entries, address)
                &&& final(tally)@.is_in_order()
            },
        },
{
    proof {
        use_type_invariant(&*tally);
        reveal(line_effect);
    }
    match SSHDLog::new_in_year(patterns, line, year) {
        Ok(log) => match log.get_ip_addr() {
            Some(address) => {
                let _ = tally.add_ip_log(&log);
                Ok(true)
            },
            None => Ok(false),
        },
        Err(SSHDLogError::LogParseError) => Ok(false),
        Err(SSHDLogError::IpParseError) => Ok(false),
        Err(e) => Err(e),
    }
}

/// Counts the lines that `buffer` holds, one per line break, as lines
/// written in the year `year`. Returns the number of lines that counted
/// for an address, or the failure that stopped the count; the lines
/// before that failure stay counted.
pub fn tally_lines(
    tally: &mut StructuredLog,
    patterns: &LogPatterns,
    buffer: &str,
    year: &str,
) -> (res: Result<usize, SSHDLogError>)
    requires
        room_for(old(tally)@.entries, split(buffer@, '\n').len() as int),
    ensures
        ({
            let run = tally_run(old(tally)@.entries, split(buffer@, '\n'), year@);
            &&& final(tally)@.entries == run.entries
            &&& one_entry_each(final(tally)@.entries)
            &&& match run.failure {
                Some(e) => res == Err::<usize, SSHDLogError>(e),
                None => res == Ok::<usize, SSHDLogError>(run.counted as usize),
            }
            &&& run.counted > 0 ==> final(tally)@.is_in_order()
            &&& run.counted == 0 ==> {
                final(tally)@.remote_endpoints == old(tally)@.remote_endpoints
            }
        }),
{
    let lines = split_on(buffer, '\n');
    let ghost all = split(buffer@, '\n');
    let ghost start = tally@.entries;
    let ghost listed = tally@.remote_endpoints;
    let mut counted: usize = 0;
    let mut i: usize = 0;
    proof {
        use_type_invariant(&*tally);
        assert(all.take(0) =~= Seq::<Seq<char>>::empty());
    }
    while i < lines.len()
        invariant
            i <= lines.len(),
            all == lines.deep_view(),
            all == split(buffer@, '\n'),
            start == old(tally)@.entries,
            listed == old(tally)@.remote_endpoints,
            counted <= i,
            one_entry_each(tally@.entries),
            room_for(tally@.entries, lines.len() - i),
            tally_run(start, all.take(i as int), year@) == (TallyRun {
                entries: tally@.entries,
                counted: counted as nat,
                failure: None,
            }),
            counted > 0 ==> tally@.is_in_order(),
            counted == 0 ==> tally@.remote_endpoints == listed,
        decreases lines.len() - i,
    {
        proof {
            assert(all.take(i + 1).drop_last() =~= all.take(i as int));
            assert(all.take(i + 1).last() == lines@[i as int]@);
            if let Ok(Some(address)) = line_effect(lines@[i as int]@, year@) {
                lemma_room_after_one(tally@.entries, address, lines.len() - i);
            }
        }
        match tally_line(tally, patterns, lines[i], year) {
            Ok(true) => {
                counted = counted + 1;
            },
            Ok(false) => {},
            Err(e) => {
                proof {
                    let stopped = tally_run(start, all.take(i + 1), year@);
                    assert(stopped.failure == Some(e));
                    assert(stopped.entries == tally@.entries);
                    assert(stopped.counted == counted);
                    lemma_stopped_count_stays(start, all, year@, i + 1);
                }
                return Err(e);
            },
        }
        i += 1;
    }
    proof {
        assert(all.take(i as int) =~= all);
    }
    Ok(counted)
}

/// A count that a line has stopped ends there, whatever follows.
pub proof fn lemma_stopped_count_stays(
    entries: Seq<RemoteEndpoint>,
    lines: Seq<Seq<char>>,
    year: Seq<char>,
    n: int,
)
    requires
        0 <= n <= lines.len(),
        tally_run(entries, lines.take(n), year).failure is Some,
    ensures
        tally_run(entries, lines, year) == tally_run(entries, lines.take(n), year),
    decreases lines.len() - n,
{
    if n == lines.len() {
        assert(lines.take(n) =~= lines);
    } else {
        assert(lines.take(n + 1).drop_last() =~= lines.take(n));
        lemma_stopped_count_stays(entries, lines, year, n + 1);
    }
}

} // verus!
