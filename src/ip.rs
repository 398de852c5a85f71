//! IP addresses and their text forms.
use vstd::prelude::*;

use crate::bytes::{copy_range, split_bytes, split_on};
use crate::decimal::{parse_octet, parse_octet_spec};

verus! {

/// ASCII '.'.
pub const FULL_STOP: u8 = 46;

/// An IPv4 address.
#[derive(Clone, Copy, Debug, PartialEq, Eq, Structural)]
pub struct Ipv4Addr {
    pub a: u8,
    pub b: u8,
    pub c: u8,
    pub d: u8,
}

impl Ipv4Addr {
    pub fn new(a: u8, b: u8, c: u8, d: u8) -> (r: Ipv4Addr)
        ensures
            r == (Ipv4Addr { a, b, c, d }),
    {
        Ipv4Addr { a, b, c, d }
    }
}

/// What `s` denotes as an IPv4 address: four octets (see
/// [`parse_octet_spec`]) joined by '.'.
pub open spec fn parse_ipv4_spec(s: Seq<u8>) -> Option<Ipv4Addr> {
    let p = split_on(s, FULL_STOP);
    if p.len() == 4 && parse_octet_spec(p[0]) is Some && parse_octet_spec(p[1]) is Some
        && parse_octet_spec(p[2]) is Some && parse_octet_spec(p[3]) is Some {
        Some(
            Ipv4Addr {
                a: parse_octet_spec(p[0])->Some_0,
                b: parse_octet_spec(p[1])->Some_0,
                c: parse_octet_spec(p[2])->Some_0,
                d: parse_octet_spec(p[3])->Some_0,
            },
        )
    } else {
        None
    }
}

/// Parses an IPv4 address (see [`parse_ipv4_spec`]).
pub fn parse_ipv4(s: &[u8]) -> (r: Option<Ipv4Addr>)
    ensures
        r == parse_ipv4_spec(s@),
{
    let parts = split_bytes(s, FULL_STOP);
    if parts.len() != 4 {
        return None;
    }
    let a = parse_octet(parts[0].as_slice());
    let b = parse_octet(parts[1].as_slice());
    let c = parse_octet(parts[2].as_slice());
    let d = parse_octet(parts[3].as_slice());
    assert(parts@[0]@ == split_on(s@, FULL_STOP)[0]);
    assert(parts@[1]@ == split_on(s@, FULL_STOP)[1]);
    assert(parts@[2]@ == split_on(s@, FULL_STOP)[2]);
    assert(parts@[3]@ == split_on(s@, FULL_STOP)[3]);
    match (a, b, c, d) {
        (Some(a), Some(b), Some(c), Some(d)) => Some(Ipv4Addr { a, b, c, d }),
        _ => None,
    }
}

/// ASCII ':'.
pub const COLON: u8 = 58;

/// An IPv6 address, as its eight 16-bit groups in order.
#[derive(Clone, Copy, Debug, PartialEq, Eq, Structural)]
pub struct Ipv6Addr {
    pub g0: u16,
    pub g1: u16,
    pub g2: u16,
    pub g3: u16,
    pub g4: u16,
    pub g5: u16,
    pub g6: u16,
    pub g7: u16,
}

impl Ipv6Addr {
    /// The address with these eight groups.
    pub open spec fn from_groups(g: Seq<u16>) -> Ipv6Addr {
        Ipv6Addr { g0: g[0], g1: g[1], g2: g[2], g3: g[3], g4: g[4], g5: g[5], g6: g[6], g7: g[7] }
    }

    pub fn new(g0: u16, g1: u16, g2: u16, g3: u16, g4: u16, g5: u16, g6: u16, g7: u16) -> (r: Ipv6Addr)
        ensures
            r == (Ipv6Addr { g0, g1, g2, g3, g4, g5, g6, g7 }),
    {
        Ipv6Addr { g0, g1, g2, g3, g4, g5, g6, g7 }
    }
}

/// An IPv4 or IPv6 address.
#[derive(Clone, Copy, Debug, PartialEq, Eq, Structural)]
pub enum IpAddr {
    V4(Ipv4Addr),
    V6(Ipv6Addr),
}

pub open spec fn hex_digit_value(b: u8) -> Option<nat> {
    if 48 <= b <= 57 {
        Some((b - 48) as nat)
    } else if 97 <= b <= 102 {
        Some((b - 87) as nat)
    } else if 65 <= b <= 70 {
        Some((b - 55) as nat)
    } else {
        None
    }
}

pub open spec fn all_hex(s: Seq<u8>) -> bool {
    forall|i: int| 0 <= i < s.len() ==> hex_digit_value(#[trigger] s[i]) is Some
}

/// The number that the hexadecimal digits `s` write.
pub open spec fn hex_value(s: Seq<u8>) -> nat
    decreases s.len(),
{
    if s.len() == 0 {
        0
    } else {
        hex_value(s.drop_last()) * 16 + hex_digit_value(s.last()).unwrap_or(0)
    }
}

/// What `s` denotes as a group of an IPv6 address: one to four hexadecimal
/// digits, of either case.
pub open spec fn parse_group_spec(s: Seq<u8>) -> Option<u16> {
    if 1 <= s.len() <= 4 && all_hex(s) {
        Some(hex_value(s) as u16)
    } else {
        None
    }
}

/// The groups that `parts` denote, or `None` when one is malformed.
pub open spec fn parse_groups_spec(parts: Seq<Seq<u8>>) -> Option<Seq<u16>>
    decreases parts.len(),
{
    if parts.len() == 0 {
        Some(Seq::empty())
    } else {
        match (parse_groups_spec(parts.drop_last()), parse_group_spec(parts.last())) {
            (Some(gs), Some(g)) => Some(gs.push(g)),
            _ => None,
        }
    }
}

/// The groups of a ':'-separated list; none for an empty list.
pub open spec fn group_list_spec(s: Seq<u8>) -> Option<Seq<u16>> {
    if s.len() == 0 {
        Some(Seq::empty())
    } else {
        parse_groups_spec(split_on(s, COLON))
    }
}

/// Index of the first "::" in `s`, or `s.len()` when there is none.
pub open spec fn double_colon_index(s: Seq<u8>) -> int
    decreases s.len(),
{
    if s.len() < 2 {
        s.len() as int
    } else if s[0] == COLON && s[1] == COLON {
        0
    } else {
        1 + double_colon_index(s.drop_first())
    }
}

/// What `s` denotes as an IPv6 address: eight groups (see
/// [`parse_group_spec`]) joined by ':', or at most seven with one "::"
/// standing for as many zero groups as are missing.
pub open spec fn parse_ipv6_spec(s: Seq<u8>) -> Option<Ipv6Addr> {
    let k = double_colon_index(s);
    if k < s.len() {
        match (group_list_spec(s.subrange(0, k)), group_list_spec(s.subrange(k + 2, s.len() as int))) {
            (Some(l), Some(r)) => if l.len() + r.len() <= 7 {
                Some(Ipv6Addr::from_groups(l + Seq::new((8 - l.len() - r.len()) as nat, |i: int| 0u16) + r))
            } else {
                None
            },
            _ => None,
        }
    } else {
        match group_list_spec(s) {
            Some(g) => if g.len() == 8 {
                Some(Ipv6Addr::from_groups(g))
            } else {
                None
            },
            None => None,
        }
    }
}

/// What `s` denotes as an IP address: IPv6 where it holds a ':', IPv4
/// otherwise.
pub open spec fn parse_ip_spec(s: Seq<u8>) -> Option<IpAddr> {
    if crate::bytes::first_index(s, COLON) < s.len() {
        match parse_ipv6_spec(s) {
            Some(a) => Some(IpAddr::V6(a)),
            None => None,
        }
    } else {
        match parse_ipv4_spec(s) {
            Some(a) => Some(IpAddr::V4(a)),
            None => None,
        }
    }
}

pub open spec fn pow16(n: nat) -> nat
    decreases n,
{
    if n == 0 {
        1
    } else {
        16 * pow16((n - 1) as nat)
    }
}

/// Parses a group of an IPv6 address (see [`parse_group_spec`]).
pub fn parse_group(s: &[u8]) -> (r: Option<u16>)
    ensures
        r == parse_group_spec(s@),
{
    if s.len() == 0 || s.len() > 4 {
        return None;
    }
    let mut v: u32 = 0;
    let mut i: usize = 0;
    while i < s.len()
        invariant
            s@.len() <= 4,
            i <= s@.len(),
            all_hex(s@.take(i as int)),
            v == hex_value(s@.take(i as int)),
            v < pow16(i as nat),
        decreases s@.len() - i,
    {
        let b = s[i];
        let d: u32 = if 48 <= b && b <= 57 {
            (b - 48) as u32
        } else if 97 <= b && b <= 102 {
            (b - 87) as u32
        } else if 65 <= b && b <= 70 {
            (b - 55) as u32
        } else {
            assert(!all_hex(s@));
            return None;
        };
        assert(s@.take(i + 1).drop_last() =~= s@.take(i as int));
        assert(pow16((i + 1) as nat) == 16 * pow16(i as nat));
        assert(pow16(i as nat) <= 4096) by {
            assert(pow16(0) == 1);
            assert(pow16(1) == 16);
            assert(pow16(2) == 256);
            assert(pow16(3) == 4096);
        }
        v = v * 16 + d;
        assert(all_hex(s@.take(i + 1))) by {
            assert forall|j: int| 0 <= j < i + 1 implies hex_digit_value(#[trigger] s@.take(i + 1)[j]) is Some by {
                if j < i {
                    assert(s@.take(i + 1)[j] == s@.take(i as int)[j]);
                }
            }
        }
        i = i + 1;
    }
    assert(s@.take(i as int) =~= s@);
    assert(pow16(4) == 65536) by {
        assert(pow16(0) == 1);
        assert(pow16(1) == 16);
        assert(pow16(2) == 256);
        assert(pow16(3) == 4096);
    }
    assert(v < 65536) by {
        assert(pow16(1) == 16);
        assert(pow16(2) == 256);
        assert(pow16(3) == 4096);
    }
    Some(v as u16)
}

proof fn lemma_groups_fail(parts: Seq<Seq<u8>>, j: int)
    requires
        0 <= j <= parts.len(),
        parse_groups_spec(parts.take(j)) is None,
    ensures
        parse_groups_spec(parts) is None,
    decreases parts.len() - j,
{
    if j < parts.len() {
        assert(parts.take(j + 1).drop_last() =~= parts.take(j));
        lemma_groups_fail(parts, j + 1);
    } else {
        assert(parts.take(j) =~= parts);
    }
}

/// Parses a ':'-separated list of groups (see [`group_list_spec`]).
pub fn parse_group_list(s: &[u8]) -> (r: Option<Vec<u16>>)
    ensures
        r is None <==> group_list_spec(s@) is None,
        r is Some ==> r->Some_0@ == group_list_spec(s@)->Some_0,
{
    let mut out: Vec<u16> = Vec::new();
    if s.len() == 0 {
        return Some(out);
    }
    let parts = split_bytes(s, COLON);
    let ghost ps = split_on(s@, COLON);
    assert(ps.take(0) =~= Seq::<Seq<u8>>::empty());
    let mut i: usize = 0;
    while i < parts.len()
        invariant
            s@.len() > 0,
            ps == split_on(s@, COLON),
            parts@.len() == ps.len(),
            forall|j: int| 0 <= j < parts@.len() ==> #[trigger] parts@[j]@ == ps[j],
            i <= ps.len(),
            parse_groups_spec(ps.take(i as int)) == Some(out@),
        decreases ps.len() - i,
    {
        assert(ps.take(i + 1).drop_last() =~= ps.take(i as int));
        assert(ps.take(i + 1).last() == parts@[i as int]@);
        match parse_group(parts[i].as_slice()) {
            None => {
                proof {
                    assert(parse_groups_spec(ps.take(i + 1)) is None);
                    lemma_groups_fail(ps, i + 1);
                }
                return None;
            },
            Some(g) => {
                out.push(g);
            },
        }
        i = i + 1;
    }
    assert(ps.take(i as int) =~= ps);
    Some(out)
}

proof fn lemma_double_colon_index(s: Seq<u8>, k: int)
    requires
        0 <= k <= s.len(),
        forall|j: int| 0 <= j < k && j + 1 < s.len() ==> !(#[trigger] s[j] == COLON && s[j + 1] == COLON),
        k == s.len() || (k + 1 < s.len() && s[k] == COLON && s[k + 1] == COLON) || (k + 1 == s.len()),
    ensures
        k + 1 < s.len() ==> double_colon_index(s) == k,
        k >= s.len() - 1 ==> double_colon_index(s) == s.len(),
    decreases k,
{
    if s.len() < 2 {
    } else if k > 0 {
        lemma_double_colon_index(s.drop_first(), k - 1);
    }
}

/// Index of the first "::" in `s`, or `s.len()` when there is none.
pub fn find_double_colon(s: &[u8]) -> (r: usize)
    ensures
        r == double_colon_index(s@),
        r < s@.len() ==> r + 1 < s@.len(),
{
    if s.len() < 2 {
        return s.len();
    }
    let mut i: usize = 0;
    while i < s.len() - 1
        invariant
            s@.len() >= 2,
            i + 1 <= s@.len(),
            forall|j: int| 0 <= j < i && j + 1 < s@.len() ==> !(#[trigger] s@[j] == COLON && s@[j + 1] == COLON),
        decreases s@.len() - i,
    {
        if s[i] == COLON && s[i + 1] == COLON {
            proof { lemma_double_colon_index(s@, i as int); }
            return i;
        }
        i = i + 1;
    }
    proof { lemma_double_colon_index(s@, i as int); }
    s.len()
}

/// Parses an IPv6 address (see [`parse_ipv6_spec`]).
pub fn parse_ipv6(s: &[u8]) -> (r: Option<Ipv6Addr>)
    ensures
        r == parse_ipv6_spec(s@),
{
    let k = find_double_colon(s);
    if k < s.len() {
        let left = copy_range(s, 0, k);
        let right = copy_range(s, k + 2, s.len());
        match (parse_group_list(left.as_slice()), parse_group_list(right.as_slice())) {
            (Some(l), Some(r)) => {
                if l.len() > 7 || r.len() > 7 - l.len() {
                    return None;
                }
                let ghost zeros = Seq::new((8 - l@.len() - r@.len()) as nat, |i: int| 0u16);
                let mut g: Vec<u16> = Vec::new();
                let mut i: usize = 0;
                while i < l.len()
                    invariant
                        i <= l@.len(),
                        g@ == l@.take(i as int),
                    decreases l@.len() - i,
                {
                    g.push(l[i]);
                    assert(l@.take(i + 1) =~= l@.take(i as int).push(l@[i as int]));
                    i = i + 1;
                }
                assert(l@.take(i as int) =~= l@);
                let missing: usize = 8 - l.len() - r.len();
                let mut z: usize = 0;
                while z < missing
                    invariant
                        z <= missing,
                        missing == 8 - l@.len() - r@.len(),
                        g@ == l@ + Seq::new(z as nat, |i: int| 0u16),
                    decreases missing - z,
                {
                    g.push(0);
                    assert(l@ + Seq::new((z + 1) as nat, |i: int| 0u16) =~= (l@ + Seq::new(z as nat, |i: int| 0u16)).push(0u16));
                    z = z + 1;
                }
                let mut j: usize = 0;
                while j < r.len()
                    invariant
                        j <= r@.len(),
                        g@ == l@ + zeros + r@.take(j as int),
                        zeros == Seq::new((8 - l@.len() - r@.len()) as nat, |i: int| 0u16),
                    decreases r@.len() - j,
                {
                    g.push(r[j]);
                    assert(r@.take(j + 1) =~= r@.take(j as int).push(r@[j as int]));
                    assert(l@ + zeros + r@.take(j + 1) =~= (l@ + zeros + r@.take(j as int)).push(r@[j as int]));
                    j = j + 1;
                }
                assert(r@.take(j as int) =~= r@);
                assert(g@.len() == 8);
                Some(Ipv6Addr { g0: g[0], g1: g[1], g2: g[2], g3: g[3], g4: g[4], g5: g[5], g6: g[6], g7: g[7] })
            },
            _ => None,
        }
    } else {
        match parse_group_list(s) {
            Some(g) => {
                if g.len() != 8 {
                    return None;
                }
                Some(Ipv6Addr { g0: g[0], g1: g[1], g2: g[2], g3: g[3], g4: g[4], g5: g[5], g6: g[6], g7: g[7] })
            },
            None => None,
        }
    }
}

/// Parses an IP address (see [`parse_ip_spec`]).
pub fn parse_ip(s: &[u8]) -> (r: Option<IpAddr>)
    ensures
        r == parse_ip_spec(s@),
{
    if crate::bytes::find_byte(s, COLON) < s.len() {
        match parse_ipv6(s) {
            Some(a) => Some(IpAddr::V6(a)),
            None => None,
        }
    } else {
        match parse_ipv4(s) {
            Some(a) => Some(IpAddr::V4(a)),
            None => None,
        }
    }
}

} // verus!
