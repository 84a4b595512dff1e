//! Internet addresses as plain numbers, and their textual forms.

use crate::text::{
    all_digits, decimal_value, lemma_split_nonempty, read_digits, split, split_on, to_chars,
};
use vstd::prelude::*;

verus! {

/// An IPv4 address as its four octets, or an IPv6 address as its eight
/// 16-bit groups, most significant first.
#[derive(Debug, Clone, Copy, PartialEq, Eq, Hash, Structural)]
pub enum IpAddress {
    V4(u8, u8, u8, u8),
    V6(u16, u16, u16, u16, u16, u16, u16, u16),
}

/// Whether a text is one decimal octet: one to three ASCII digits, no
/// leading zero before another digit, and a value of at most 255.
pub open spec fn is_octet(s: Seq<char>) -> bool {
    &&& 1 <= s.len() <= 3
    &&& all_digits(s)
    &&& (s.len() > 1 ==> s[0] != '0')
    &&& decimal_value(s) <= 255
}

/// The four octets of a dotted-quad text, if it is one.
pub open spec fn ipv4_octets(s: Seq<char>) -> Option<Seq<int>> {
    let parts = split(s, '.');
    if parts.len() == 4 && (forall|i: int| 0 <= i < 4 ==> is_octet(#[trigger] parts[i])) {
        Some(Seq::new(4, |i: int| decimal_value(parts[i])))
    } else {
        None
    }
}

/// Whether a character is a hexadecimal digit, in either letter case.
pub open spec fn is_hex_digit(c: char) -> bool {
    ('0' <= c && c <= '9') || ('a' <= c && c <= 'f') || ('A' <= c && c <= 'F')
}

/// The number that a hexadecimal digit stands for.
pub open spec fn hex_digit_value(c: char) -> int {
    if '0' <= c && c <= '9' {
        (c as int) - ('0' as int)
    } else if 'a' <= c && c <= 'f' {
        (c as int) - ('a' as int) + 10
    } else {
        (c as int) - ('A' as int) + 10
    }
}

/// The number that a run of hexadecimal digits denotes.
pub open spec fn hex_value(s: Seq<char>) -> int
    decreases s.len(),
{
    if s.len() == 0 {
        0
    } else {
        hex_value(s.drop_last()) * 16 + hex_digit_value(s.last())
    }
}

/// Whether a text is one IPv6 group: one to four hexadecimal digits.
pub open spec fn is_hex_group(s: Seq<char>) -> bool {
    &&& 1 <= s.len() <= 4
    &&& forall|i: int| 0 <= i < s.len() ==> is_hex_digit(#[trigger] s[i])
}

/// The values of colon-separated hexadecimal groups, if every piece is
/// one.
pub open spec fn hex_groups(s: Seq<char>) -> Option<Seq<int>> {
    let parts = split(s, ':');
    if forall|i: int| 0 <= i < parts.len() ==> is_hex_group(#[trigger] parts[i]) {
        Some(Seq::new(parts.len(), |i: int| hex_value(parts[i])))
    } else {
        None
    }
}

/// The two 16-bit groups that four octets fill.
pub open spec fn octets_as_groups(o: Seq<int>) -> Seq<int> {
    seq![o[0] * 256 + o[1], o[2] * 256 + o[3]]
}

/// The values of colon-separated groups whose last piece may be a
/// dotted quad, which then stands for two groups.
pub open spec fn tail_groups(s: Seq<char>) -> Option<Seq<int>> {
    let parts = split(s, ':');
    let front = parts.drop_last();
    if forall|i: int| 0 <= i < front.len() ==> is_hex_group(#[trigger] front[i]) {
        let front_values = Seq::new(front.len(), |i: int| hex_value(front[i]));
        if is_hex_group(parts.last()) {
            Some(front_values.push(hex_value(parts.last())))
        } else {
            match ipv4_octets(parts.last()) {
                Some(o) => Some(front_values + octets_as_groups(o)),
                None => None,
            }
        }
    } else {
        None
    }
}

/// The first position at which two colons stand side by side.
pub open spec fn double_colon_at(s: Seq<char>, k: int) -> bool {
    &&& 0 <= k && k + 1 < s.len()
    &&& s[k] == ':' && s[k + 1] == ':'
    &&& forall|j: int| 0 <= j < k ==> !(#[trigger] s[j] == ':' && s[j + 1] == ':')
}

/// Whether no two colons stand side by side anywhere in the text.
pub open spec fn no_double_colon(s: Seq<char>) -> bool {
    forall|j: int| 0 <= j && j + 1 < s.len() ==> !(#[trigger] s[j] == ':' && s[j + 1] == ':')
}

/// The groups of an address written with `::` at position `k`: those
/// before it, as many zero groups as are missing, those after it.
pub open spec fn compressed_groups(s: Seq<char>, k: int) -> Option<Seq<int>> {
    let head = if k == 0 {
        Some(Seq::<int>::empty())
    } else {
        hex_groups(s.take(k))
    };
    let tail = if k + 2 == s.len() {
        Some(Seq::<int>::empty())
    } else {
        tail_groups(s.skip(k + 2))
    };
    match (head, tail) {
        (Some(h), Some(t)) => if h.len() + t.len() <= 7 {
            Some(h + Seq::new((8 - h.len() - t.len()) as nat, |i: int| 0int) + t)
        } else {
            None
        },
        _ => None,
    }
}

/// The eight groups of an IPv6 text: either eight written groups (the
/// last two possibly as a dotted quad), or fewer with one `::` standing
/// for the groups of zeros that are missing.
pub open spec fn ipv6_groups(s: Seq<char>) -> Option<Seq<int>> {
    if no_double_colon(s) {
        match tail_groups(s) {
            Some(g) => if g.len() == 8 {
                Some(g)
            } else {
                None
            },
            None => None,
        }
    } else {
        compressed_groups(s, choose|k: int| double_colon_at(s, k))
    }
}

/// The address that a text denotes: a dotted quad, or else an IPv6 text.
pub open spec fn spec_parse_ip(s: Seq<char>) -> Option<IpAddress> {
    match ipv4_octets(s) {
        Some(o) => Some(IpAddress::V4(o[0] as u8, o[1] as u8, o[2] as u8, o[3] as u8)),
        None => match ipv6_groups(s) {
            Some(g) => Some(
                IpAddress::V6(
                    g[0] as u16,
                    g[1] as u16,
                    g[2] as u16,
                    g[3] as u16,
                    g[4] as u16,
                    g[5] as u16,
                    g[6] as u16,
                    g[7] as u16,
                ),
            ),
            None => None,
        },
    }
}

/// Reads a text as one decimal octet.
pub fn parse_octet(s: &str) -> (r: Option<u8>)
    ensures
        r is Some <==> is_octet(s@),
        r matches Some(v) ==> v == decimal_value(s@),
{
    let chars = to_chars(s);
    if chars.len() < 1 || chars.len() > 3 {
        return None;
    }
    if chars.len() > 1 && chars[0] == '0' {
        return None;
    }
    assert(chars@.skip(0) =~= s@);
    match read_digits(&chars, 0, 255) {
        Some(v) => Some(v as u8),
        None => None,
    }
}

/// Reads a text as a dotted quad.
pub fn parse_ipv4(s: &str) -> (r: Option<(u8, u8, u8, u8)>)
    ensures
        r is Some <==> ipv4_octets(s@) is Some,
        r matches Some(q) ==> ipv4_octets(s@) == Some(
            seq![q.0 as int, q.1 as int, q.2 as int, q.3 as int],
        ),
{
    let parts = split_on(s, '.');
    if parts.len() != 4 {
        return None;
    }
    let ghost pieces = split(s@, '.');
    assert(forall|i: int| 0 <= i < 4 ==> pieces[i] == (#[trigger] parts@[i])@);
    let a = match parse_octet(parts[0]) {
        Some(v) => v,
        None => {
            assert(!is_octet(pieces[0]));
            return None;
        },
    };
    let b = match parse_octet(parts[1]) {
        Some(v) => v,
        None => {
            assert(!is_octet(pieces[1]));
            return None;
        },
    };
    let c = match parse_octet(parts[2]) {
        Some(v) => v,
        None => {
            assert(!is_octet(pieces[2]));
            return None;
        },
    };
    let d = match parse_octet(parts[3]) {
        Some(v) => v,
        None => {
            assert(!is_octet(pieces[3]));
            return None;
        },
    };
    assert(ipv4_octets(s@).unwrap() =~= seq![a as int, b as int, c as int, d as int]);
    Some((a, b, c, d))
}

/// Reads a text as one hexadecimal group.
pub fn parse_hex_group(s: &str) -> (r: Option<u16>)
    ensures
        r is Some <==> is_hex_group(s@),
        r matches Some(v) ==> v == hex_value(s@),
{
    let chars = to_chars(s);
    if chars.len() < 1 || chars.len() > 4 {
        return None;
    }
    let mut acc: u32 = 0;
    let mut i: usize = 0;
    while i < chars.len()
        invariant
            i <= chars.len() <= 4,
            chars@ == s@,
            forall|j: int| 0 <= j < i ==> is_hex_digit(#[trigger] s@[j]),
            acc == hex_value(s@.take(i as int)),
            i == 0 ==> acc == 0,
            i == 1 ==> acc < 0x10,
            i == 2 ==> acc < 0x100,
            i == 3 ==> acc < 0x1000,
            i == 4 ==> acc < 0x10000,
        decreases chars.len() - i,
    {
        let c = chars[i];
        let d: u32 = if '0' <= c && c <= '9' {
            ((c as u8) - ('0' as u8)) as u32
        } else if 'a' <= c && c <= 'f' {
            ((c as u8) - ('a' as u8)) as u32 + 10
        } else if 'A' <= c && c <= 'F' {
            ((c as u8) - ('A' as u8)) as u32 + 10
        } else {
            assert(!is_hex_digit(s@[i as int]));
            return None;
        };
        proof {
            let t = s@.take(i + 1);
            assert(t.drop_last() =~= s@.take(i as int));
            assert(t.last() == c);
            assert(d == hex_digit_value(c));
        }
        acc = acc * 16 + d;
        i += 1;
    }
    assert(s@.take(i as int) =~= s@);
    Some(acc as u16)
}

/// The groups of a vector as mathematical integers.
pub open spec fn as_ints(v: Seq<u16>) -> Seq<int> {
    Seq::new(v.len(), |i: int| v[i] as int)
}

/// Reads colon-separated hexadecimal groups.
pub fn parse_hex_groups(s: &str) -> (r: Option<Vec<u16>>)
    ensures
        r is Some <==> hex_groups(s@) is Some,
        r matches Some(v) ==> hex_groups(s@) == Some(as_ints(v@)),
{
    let parts = split_on(s, ':');
    let ghost pieces = split(s@, ':');
    assert(forall|i: int| 0 <= i < pieces.len() ==> pieces[i] == (#[trigger] parts@[i])@);
    let mut out: Vec<u16> = Vec::new();
    let mut i: usize = 0;
    while i < parts.len()
        invariant
            i <= parts.len(),
            pieces == split(s@, ':'),
            pieces.len() == parts.len(),
            out.len() == i,
            forall|j: int| 0 <= j < pieces.len() ==> pieces[j] == (#[trigger] parts@[j])@,
            forall|j: int| 0 <= j < i ==> is_hex_group(#[trigger] pieces[j]),
            forall|j: int| 0 <= j < i ==> out@[j] == hex_value(#[trigger] pieces[j]),
        decreases parts.len() - i,
    {
        match parse_hex_group(parts[i]) {
            Some(v) => {
                out.push(v);
            },
            None => {
                assert(!is_hex_group(pieces[i as int]));
                return None;
            },
        }
        i += 1;
    }
    assert(hex_groups(s@).unwrap() =~= as_ints(out@));
    Some(out)
}

/// Reads colon-separated groups whose last piece may be a dotted quad.
pub fn parse_tail_groups(s: &str) -> (r: Option<Vec<u16>>)
    ensures
        r is Some <==> tail_groups(s@) is Some,
        r matches Some(v) ==> tail_groups(s@) == Some(as_ints(v@)),
{
    let parts = split_on(s, ':');
    let ghost pieces = split(s@, ':');
    proof {
        lemma_split_nonempty(s@, ':');
    }
    assert(forall|i: int| 0 <= i < pieces.len() ==> pieces[i] == (#[trigger] parts@[i])@);
    let ghost front = pieces.drop_last();
    let last_index: usize = parts.len() - 1;
    let mut out: Vec<u16> = Vec::new();
    let mut i: usize = 0;
    while i < last_index
        invariant
            i <= last_index,
            last_index + 1 == parts.len(),
            pieces == split(s@, ':'),
            pieces.len() == parts.len(),
            front == pieces.drop_last(),
            out.len() == i,
            forall|j: int| 0 <= j < pieces.len() ==> pieces[j] == (#[trigger] parts@[j])@,
            forall|j: int| 0 <= j < i ==> is_hex_group(#[trigger] front[j]),
            forall|j: int| 0 <= j < i ==> out@[j] == hex_value(#[trigger] front[j]),
        decreases last_index - i,
    {
        match parse_hex_group(parts[i]) {
            Some(v) => {
                assert(front[i as int] == pieces[i as int]);
                out.push(v);
            },
            None => {
                assert(!is_hex_group(front[i as int]));
                return None;
            },
        }
        i += 1;
    }
    let ghost front_values = Seq::new(front.len(), |i: int| hex_value(front[i]));
    assert(as_ints(out@) =~= front_values);
    let last = parts[last_index];
    assert(last@ == pieces.last());
    match parse_hex_group(last) {
        Some(v) => {
            out.push(v);
            assert(as_ints(out@) =~= front_values.push(hex_value(pieces.last())));
            Some(out)
        },
        None => match parse_ipv4(last) {
            Some(q) => {
                let hi: u16 = (q.0 as u16) * 256 + (q.1 as u16);
                let lo: u16 = (q.2 as u16) * 256 + (q.3 as u16);
                out.push(hi);
                out.push(lo);
                assert(as_ints(out@) =~= front_values + octets_as_groups(
                    ipv4_octets(pieces.last()).unwrap(),
                ));
                Some(out)
            },
            None => None,
        },
    }
}

/// The position of the first `::` in a text, if there is one.
fn find_double_colon(chars: &Vec<char>) -> (r: Option<usize>)
    ensures
        r is None ==> no_double_colon(chars@),
        r matches Some(k) ==> double_colon_at(chars@, k as int),
{
    if chars.len() < 2 {
        return None;
    }
    let mut j: usize = 0;
    while j < chars.len() - 1
        invariant
            chars.len() >= 2,
            forall|i: int| 0 <= i < j ==> !(#[trigger] chars@[i] == ':' && chars@[i + 1] == ':'),
        decreases chars.len() - j,
    {
        if chars[j] == ':' && chars[j + 1] == ':' {
            return Some(j);
        }
        j += 1;
    }
    None
}

/// Only one position is the first `::` of a text.
pub proof fn lemma_double_colon_unique(s: Seq<char>, a: int, b: int)
    requires
        double_colon_at(s, a),
        double_colon_at(s, b),
    ensures
        a == b,
{
    if a < b {
        assert(!(s[a] == ':' && s[a + 1] == ':'));
    } else if b < a {
        assert(!(s[b] == ':' && s[b + 1] == ':'));
    }
}

/// Reads a text as an IPv6 address and returns its eight groups.
pub fn parse_ipv6(s: &str) -> (r: Option<Vec<u16>>)
    ensures
        r is Some <==> ipv6_groups(s@) is Some,
        r matches Some(v) ==> v.len() == 8 && ipv6_groups(s@) == Some(as_ints(v@)),
{
    let chars = to_chars(s);
    match find_double_colon(&chars) {
        None => match parse_tail_groups(s) {
            Some(v) => if v.len() == 8 {
                Some(v)
            } else {
                None
            },
            None => None,
        },
        Some(k) => {
            assert(k + 1 < chars.len());
            proof {
                let c = choose|c: int| double_colon_at(s@, c);
                lemma_double_colon_unique(s@, k as int, c);
                assert(s@[k as int] == ':' && s@[k + 1] == ':');
            }
            let head: Vec<u16> = if k == 0 {
                Vec::new()
            } else {
                let before = s.substring_char(0, k);
                assert(before@ =~= s@.take(k as int));
                match parse_hex_groups(before) {
                    Some(h) => h,
                    None => {
                        return None;
                    },
                }
            };
            let tail: Vec<u16> = if k + 2 == chars.len() {
                Vec::new()
            } else {
                let after = s.substring_char(k + 2, chars.len());
                assert(after@ =~= s@.skip(k + 2));
                match parse_tail_groups(after) {
                    Some(t) => t,
                    None => {
                        return None;
                    },
                }
            };
            assert(as_ints(Seq::<u16>::empty()) =~= Seq::<int>::empty());
            if head.len() > 7 || tail.len() > 7 - head.len() {
                return None;
            }
            let missing: usize = 8 - head.len() - tail.len();
            let mut out: Vec<u16> = head;
            let ghost h = out@;
            let mut z: usize = 0;
            while z < missing
                invariant
                    z <= missing,
                    out@ == h + Seq::new(z as nat, |i: int| 0u16),
                decreases missing - z,
            {
                out.push(0);
                z += 1;
                assert(out@ =~= h + Seq::new(z as nat, |i: int| 0u16));
            }
            let mut t: usize = 0;
            while t < tail.len()
                invariant
                    t <= tail.len(),
                    out@ == h + Seq::new(missing as nat, |i: int| 0u16) + tail@.take(t as int),
                decreases tail.len() - t,
            {
                out.push(tail[t]);
                t += 1;
                assert(out@ =~= h + Seq::new(missing as nat, |i: int| 0u16) + tail@.take(t as int));
            }
            assert(tail@.take(t as int) =~= tail@);
            assert(as_ints(out@) =~= as_ints(h) + Seq::new(missing as nat, |i: int| 0int)
                + as_ints(tail@));
            Some(out)
        },
    }
}

/// Reads a text as an internet address.
pub fn parse_ip(s: &str) -> (r: Option<IpAddress>)
    ensures
        r == spec_parse_ip(s@),
{
    match parse_ipv4(s) {
        Some(q) => Some(IpAddress::V4(q.0, q.1, q.2, q.3)),
        None => match parse_ipv6(s) {
            Some(g) => Some(IpAddress::V6(g[0], g[1], g[2], g[3], g[4], g[5], g[6], g[7])),
            None => None,
        },
    }
}

} // verus!
