//! The tally of remote addresses: how often each was seen in the log.

use crate::net::IpAddress;
use crate::ssh_log::enums::SSHDLogError;
use crate::ssh_log::SSHDLog;
use crate::time::{now, Timestamp};
use vstd::prelude::*;
use vstd::seq_lib::{to_multiset_build, to_multiset_remove};

verus! {

/// A remote address and the number of log lines that named it.
#[derive(Debug, Clone, Copy, PartialEq, Eq, Hash, Structural)]
pub struct RemoteEndpoint {
    pub address: IpAddress,
    pub log_count: usize,
}

/// Whether no address has two entries.
pub open spec fn one_entry_each(entries: Seq<RemoteEndpoint>) -> bool {
    forall|i: int, j: int|
        0 <= i < entries.len() && 0 <= j < entries.len() && i != j ==> (
        #[trigger] entries[i]).address != (#[trigger] entries[j]).address
}

/// Whether the entries stand in the order of their counts, the largest
/// first.
pub open spec fn most_seen_first(entries: Seq<RemoteEndpoint>) -> bool {
    forall|i: int, j: int|
        0 <= i <= j < entries.len() ==> (#[trigger] entries[i]).log_count >= (
        #[trigger] entries[j]).log_count
}

/// Where the entry of `address` stands, if it has one.
pub open spec fn entry_of(entries: Seq<RemoteEndpoint>, address: IpAddress, i: int) -> bool {
    0 <= i < entries.len() && entries[i].address == address
}

/// Whether `address` has no entry.
pub open spec fn unseen(entries: Seq<RemoteEndpoint>, address: IpAddress) -> bool {
    forall|i: int| 0 <= i < entries.len() ==> (#[trigger] entries[i]).address != address
}

/// The entries after one more line named `address`: its entry counts one
/// more, or it gets an entry that counts one, at the end.
pub open spec fn seen_once_more(entries: Seq<RemoteEndpoint>, address: IpAddress) -> Seq<
    RemoteEndpoint,
> {
    if unseen(entries, address) {
        entries.push(RemoteEndpoint { address, log_count: 1 })
    } else {
        let i = choose|i: int| entry_of(entries, address, i);
        entries.update(
            i,
            RemoteEndpoint { address, log_count: (entries[i].log_count + 1) as usize },
        )
    }
}

/// The entries that a saved list stands for: each address once, at the
/// place where the list first names it, with the count that the list
/// gives it last.
pub open spec fn entries_of(saved: Seq<RemoteEndpoint>) -> Seq<RemoteEndpoint>
    decreases saved.len(),
{
    if saved.len() == 0 {
        Seq::empty()
    } else {
        recorded(entries_of(saved.drop_last()), saved.last())
    }
}

/// The entries with `endpoint` put in: in place of the entry of its
/// address, or at the end where the address has none.
pub open spec fn recorded(entries: Seq<RemoteEndpoint>, endpoint: RemoteEndpoint) -> Seq<
    RemoteEndpoint,
> {
    if unseen(entries, endpoint.address) {
        entries.push(endpoint)
    } else {
        entries.update(choose|i: int| entry_of(entries, endpoint.address, i), endpoint)
    }
}

/// Whether every entry can count `n` more lines.
pub open spec fn room_for(entries: Seq<RemoteEndpoint>, n: int) -> bool {
    forall|i: int| 0 <= i < entries.len() ==> (#[trigger] entries[i]).log_count + n <= usize::MAX
}

/// Entries that can count `n` more lines can, after one line, count the
/// other `n - 1`.
pub proof fn lemma_room_after_one(entries: Seq<RemoteEndpoint>, address: IpAddress, n: int)
    requires
        one_entry_each(entries),
        room_for(entries, n),
        1 <= n <= usize::MAX,
    ensures
        room_for(seen_once_more(entries, address), n - 1),
{
    let after = seen_once_more(entries, address);
    if unseen(entries, address) {
        assert forall|i: int| 0 <= i < after.len() implies (#[trigger] after[i]).log_count + (n
            - 1) <= usize::MAX by {
            if i < entries.len() {
                assert(after[i] == entries[i]);
            }
        }
    } else {
        let k = choose|k: int| entry_of(entries, address, k);
        assert(!unseen(entries, address));
        assert(exists|k: int| entry_of(entries, address, k)) by {
            let w = choose|w: int|
                0 <= w < entries.len() && !((#[trigger] entries[w]).address != address);
            assert(entry_of(entries, address, w));
        }
        assert(entry_of(entries, address, k));
        assert forall|i: int| 0 <= i < after.len() implies (#[trigger] after[i]).log_count + (n
            - 1) <= usize::MAX by {
            if i != k {
                assert(after[i] == entries[i]);
            } else {
                assert(entries[k].log_count + n <= usize::MAX);
            }
        }
    }
}

/// What a tally holds, as plain values.
pub struct StructuredLogView {
    pub updated_time: Timestamp,
    /// The list as it was last put in order.
    pub remote_endpoints: Seq<RemoteEndpoint>,
    /// One entry for each address, in the order in which they were first
    /// seen.
    pub entries: Seq<RemoteEndpoint>,
}

impl StructuredLogView {
    /// Whether the list holds every entry, each once, the most seen
    /// first.
    pub open spec fn is_in_order(self) -> bool {
        &&& most_seen_first(self.remote_endpoints)
        &&& self.remote_endpoints.to_multiset() == self.entries.to_multiset()
        &&& self.remote_endpoints.len() == self.entries.len()
    }
}

#[derive(Debug)]
pub struct StructuredLog {
    updated_time: Timestamp,
    remote_endpoints: Vec<RemoteEndpoint>,
    remote_endpoints_map: Vec<RemoteEndpoint>,
}

impl View for StructuredLog {
    type V = StructuredLogView;

    closed spec fn view(&self) -> StructuredLogView {
        StructuredLogView {
            updated_time: self.updated_time,
            remote_endpoints: self.remote_endpoints@,
            entries: self.remote_endpoints_map@,
        }
    }
}

/// Where the entry of an address stands in a list without repeats.
fn position_of(entries: &Vec<RemoteEndpoint>, address: &IpAddress) -> (at: Option<usize>)
    ensures
        at matches Some(i) ==> entry_of(entries@, *address, i as int),
        at is None ==> unseen(entries@, *address),
{
    let mut i: usize = 0;
    while i < entries.len()
        invariant
            i <= entries.len(),
            forall|j: int| 0 <= j < i ==> (#[trigger] entries@[j]).address != *address,
        decreases entries.len() - i,
    {
        if entries[i].address == *address {
            return Some(i);
        }
        i += 1;
    }
    None
}

/// In a list without repeats an address has its entry at one place only.
pub proof fn lemma_entry_is_unique(entries: Seq<RemoteEndpoint>, address: IpAddress, i: int)
    requires
        one_entry_each(entries),
        entry_of(entries, address, i),
    ensures
        !unseen(entries, address),
        (choose|k: int| entry_of(entries, address, k)) == i,
{
    let k = choose|k: int| entry_of(entries, address, k);
    assert(entry_of(entries, address, k));
    if k != i {
        assert(entries[k].address != entries[i].address);
    }
}

/// Puts an endpoint into a list without repeats.
fn record(entries: &mut Vec<RemoteEndpoint>, endpoint: RemoteEndpoint)
    requires
        one_entry_each(old(entries)@),
    ensures
        one_entry_each(final(entries)@),
        final(entries)@ == recorded(old(entries)@, endpoint),
{
    match position_of(entries, &endpoint.address) {
        Some(i) => {
            proof {
                lemma_entry_is_unique(entries@, endpoint.address, i as int);
            }
            entries.set(i, endpoint);
        },
        None => {
            entries.push(endpoint);
        },
    }
}

/// Putting an element into a sequence adds it to what the sequence
/// holds, wherever it is put.
pub proof fn lemma_insert_adds_one(s: Seq<RemoteEndpoint>, i: int, e: RemoteEndpoint)
    requires
        0 <= i <= s.len(),
    ensures
        s.insert(i, e).to_multiset() == s.to_multiset().insert(e),
{
    let t = s.insert(i, e);
    assert(t.remove(i) =~= s);
    to_multiset_remove(t, i);
    t.to_multiset_ensures();
    assert(t.contains(e)) by {
        assert(t[i] == e);
    }
    assert(t.to_multiset() =~= s.to_multiset().insert(e));
}

/// The entries in the order of their counts, the largest first.
fn sorted_by_count(entries: &Vec<RemoteEndpoint>) -> (sorted: Vec<RemoteEndpoint>)
    ensures
        most_seen_first(sorted@),
        sorted@.to_multiset() == entries@.to_multiset(),
        sorted@.len() == entries@.len(),
{
    let mut sorted: Vec<RemoteEndpoint> = Vec::new();
    let mut n: usize = 0;
    assert(entries@.take(0) =~= Seq::<RemoteEndpoint>::empty());
    while n < entries.len()
        invariant
            n <= entries.len(),
            sorted@.len() == n,
            most_seen_first(sorted@),
            sorted@.to_multiset() == entries@.take(n as int).to_multiset(),
        decreases entries.len() - n,
    {
        let e = entries[n];
        let mut at: usize = 0;
        while at < sorted.len() && sorted[at].log_count >= e.log_count
            invariant
                at <= sorted.len(),
                forall|k: int| 0 <= k < at ==> (#[trigger] sorted@[k]).log_count >= e.log_count,
            decreases sorted.len() - at,
        {
            at += 1;
        }
        proof {
            lemma_insert_adds_one(sorted@, at as int, e);
            to_multiset_build(entries@.take(n as int), e);
            assert(entries@.take(n + 1) =~= entries@.take(n as int).push(e));
            let after = sorted@.insert(at as int, e);
            assert forall|i: int, j: int| 0 <= i <= j < after.len() implies (
            #[trigger] after[i]).log_count >= (#[trigger] after[j]).log_count by {
                if i < at && j > at {
                    assert(sorted@[i].log_count >= sorted@[j - 1].log_count);
                } else if i > at {
                    assert(sorted@[i - 1].log_count >= sorted@[j - 1].log_count);
                } else if i < at && j < at {
                    assert(sorted@[i].log_count >= sorted@[j].log_count);
                } else if i == at && j > at {
                    assert(sorted@[at as int].log_count >= sorted@[j - 1].log_count);
                }
            }
        }
        sorted.insert(at, e);
        n += 1;
    }
    assert(entries@.take(n as int) =~= entries@);
    sorted
}

impl StructuredLog {
    #[verifier::type_invariant]
    pub(crate) open spec fn each_address_once(self) -> bool {
        one_entry_each(self@.entries)
    }

    /// A tally without addresses, as of now.
    pub fn empty() -> (log: StructuredLog)
        ensures
            log@.remote_endpoints.len() == 0,
            log@.entries.len() == 0,
    {
        StructuredLog {
            remote_endpoints: Vec::new(),
            updated_time: now(),
            remote_endpoints_map: Vec::new(),
        }
    }

    /// The tally that was saved as this time and this list. The list is
    /// kept as it is; each address counts what the list says of it last.
    pub fn init(updated_time: Timestamp, remote_endpoints: Vec<RemoteEndpoint>) -> (log:
        StructuredLog)
        ensures
            log@.updated_time == updated_time,
            log@.remote_endpoints == remote_endpoints@,
            log@.entries == entries_of(remote_endpoints@),
            one_entry_each(log@.entries),
    {
        let mut map: Vec<RemoteEndpoint> = Vec::new();
        let mut i: usize = 0;
        assert(remote_endpoints@.take(0) =~= Seq::<RemoteEndpoint>::empty());
        while i < remote_endpoints.len()
            invariant
                i <= remote_endpoints.len(),
                one_entry_each(map@),
                map@ == entries_of(remote_endpoints@.take(i as int)),
            decreases remote_endpoints.len() - i,
        {
            proof {
                assert(remote_endpoints@.take(i + 1).drop_last() =~= remote_endpoints@.take(
                    i as int,
                ));
            }
            record(&mut map, remote_endpoints[i]);
            i += 1;
        }
        assert(remote_endpoints@.take(i as int) =~= remote_endpoints@);
        StructuredLog { updated_time, remote_endpoints, remote_endpoints_map: map }
    }

    /// Puts the list in order again: every entry, the most seen first.
    pub fn sort_endpoints(&mut self)
        ensures
            final(self)@.updated_time == old(self)@.updated_time,
            final(self)@.entries == old(self)@.entries,
            one_entry_each(final(self)@.entries),
            final(self)@.is_in_order(),
    {
        proof {
            use_type_invariant(&*self);
        }
        let sorted = sorted_by_count(&self.remote_endpoints_map);
        self.remote_endpoints = sorted;
    }

    /// Counts one more line for the address that `log` names, and puts
    /// the list in order. A line that names no address is an error and
    /// counts for nothing. Either way the tally is as of now.
    pub fn add_ip_log(&mut self, log: &SSHDLog) -> (res: Result<(), SSHDLogError>)
        requires
            room_for(old(self)@.entries, 1),
        ensures
            match log@.remote_address {
                None => {
                    &&& res == Err::<(), SSHDLogError>(SSHDLogError::IpParseError)
                    &&& final(self)@.entries == old(self)@.entries
                    &&& final(self)@.remote_endpoints == old(self)@.remote_endpoints
                },
                Some(addr) => {
                    &&& res is Ok
                    &&& final(self)@.entries == seen_once_more(old(self)@.entries, addr)
                    &&& one_entry_each(final(self)@.entries)
                    &&& final(self)@.is_in_order()
                },
            },
    {
        proof {
            use_type_invariant(&*self);
        }
        self.updated_time = now();
        let addr = match log.get_ip_addr() {
            Some(a) => a,
            None => {
                return Err(SSHDLogError::IpParseError);
            },
        };
        let mut map = self.take_map();
        match position_of(&map, &addr) {
            Some(i) => {
                proof {
                    lemma_entry_is_unique(map@, addr, i as int);
                }
                let seen = map[i];
                assert(seen == old(self)@.entries[i as int]);
                map.set(i, RemoteEndpoint { address: addr, log_count: seen.log_count + 1 });
            },
            None => {
                map.push(RemoteEndpoint { address: addr, log_count: 1 });
            },
        }
        let sorted = sorted_by_count(&map);
        self.remote_endpoints = sorted;
        self.remote_endpoints_map = map;
        Ok(())
    }

    /// Hands the entries out and leaves none.
    fn take_map(&mut self) -> (map: Vec<RemoteEndpoint>)
        ensures
            map@ == old(self)@.entries,
            one_entry_each(map@),
            final(self)@.entries.len() == 0,
            final(self)@.remote_endpoints == old(self)@.remote_endpoints,
            final(self)@.updated_time == old(self)@.updated_time,
    {
        proof {
            use_type_invariant(&*self);
        }
        let mut map: Vec<RemoteEndpoint> = Vec::new();
        core::mem::swap(&mut self.remote_endpoints_map, &mut map);
        map
    }

    /// Whether every address can be counted `n` more times.
    pub fn has_room_for(&self, n: usize) -> (room: bool)
        ensures
            room == room_for(self@.entries, n as int),
    {
        let mut i: usize = 0;
        while i < self.remote_endpoints_map.len()
            invariant
                i <= self.remote_endpoints_map.len(),
                forall|k: int|
                    0 <= k < i ==> (#[trigger] self.remote_endpoints_map@[k]).log_count + n
                        <= usize::MAX,
            decreases self.remote_endpoints_map.len() - i,
        {
            if self.remote_endpoints_map[i].log_count > usize::MAX - n {
                return false;
            }
            i += 1;
        }
        true
    }

    /// The number of addresses in the list as it was last put in order.
    pub fn count_of_addresses(&self) -> (n: usize)
        ensures
            n == self@.remote_endpoints.len(),
    {
        self.remote_endpoints.len()
    }

    /// The number of addresses that have been seen.
    pub fn count_of_entries(&self) -> (n: usize)
        ensures
            n == self@.entries.len(),
            one_entry_each(self@.entries),
    {
        proof {
            use_type_invariant(self);
        }
        self.remote_endpoints_map.len()
    }

    /// When the tally was last changed.
    pub fn updated_time(&self) -> (t: Timestamp)
        ensures
            t == self@.updated_time,
    {
        self.updated_time
    }

    /// The list as it was last put in order.
    pub fn remote_endpoints(&self) -> (list: &Vec<RemoteEndpoint>)
        ensures
            list@ == self@.remote_endpoints,
    {
        &self.remote_endpoints
    }
}

} // verus!
