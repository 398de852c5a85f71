//! DNS overrides: the per-call table of host to address overrides and the
//! service that fills it from an opt-in request header.
use vstd::prelude::*;

use crate::bytes::{bytes_eq, copy_bytes, copy_range, find_byte, first_index, split_bytes, split_on};
use crate::ip::{parse_ip, parse_ip_spec, IpAddr};

verus! {

/// One host with overriding addresses.
#[derive(Clone, Debug)]
pub struct DnsEntry {
    pub host: Vec<u8>,
    pub addresses: Vec<IpAddr>,
}

/// The addresses that `entries` give for `host`: those of every entry for
/// that host, in order, or `None` when no entry names it.
pub open spec fn lookup_entries(entries: Seq<DnsEntry>, host: Seq<u8>) -> Option<Seq<IpAddr>>
    decreases entries.len(),
{
    if entries.len() == 0 {
        None
    } else {
        let prev = lookup_entries(entries.drop_last(), host);
        let last = entries.last();
        if last.host@ == host {
            Some(
                match prev {
                    Some(p) => p + last.addresses@,
                    None => last.addresses@,
                },
            )
        } else {
            prev
        }
    }
}

/// The union of two lookups where both tables hold entries for a host.
pub open spec fn join_lookup(a: Option<Seq<IpAddr>>, b: Option<Seq<IpAddr>>) -> Option<Seq<IpAddr>> {
    match (a, b) {
        (Some(x), Some(y)) => Some(x + y),
        (Some(x), None) => Some(x),
        (None, y) => y,
    }
}

pub proof fn lemma_lookup_concat(a: Seq<DnsEntry>, b: Seq<DnsEntry>, host: Seq<u8>)
    ensures
        lookup_entries(a + b, host) == join_lookup(lookup_entries(a, host), lookup_entries(b, host)),
    decreases b.len(),
{
    if b.len() == 0 {
        assert(a + b =~= a);
    } else {
        assert((a + b).drop_last() =~= a + b.drop_last());
        lemma_lookup_concat(a, b.drop_last(), host);
        match (lookup_entries(a, host), lookup_entries(b.drop_last(), host)) {
            (Some(x), Some(y)) => {
                assert(x + y + b.last().addresses@ =~= x + (y + b.last().addresses@));
            },
            _ => {},
        }
    }
}

/// Table of DNS overrides: explicitly given addresses for host names, which
/// take precedence over live resolution.
#[derive(Clone, Debug)]
pub struct DnsOverrides {
    entries: Vec<DnsEntry>,
}

impl DnsOverrides {
    /// The addresses this table gives for `host`, if any.
    pub closed spec fn spec_lookup(&self, host: Seq<u8>) -> Option<Seq<IpAddr>> {
        lookup_entries(self.entries@, host)
    }

    /// An empty table.
    pub fn new() -> (r: DnsOverrides)
        ensures
            forall|h: Seq<u8>| r.spec_lookup(h) is None,
    {
        DnsOverrides { entries: Vec::new() }
    }

    /// Whether the table holds addresses for `host`.
    pub fn contains_host(&self, host: &[u8]) -> (r: bool)
        ensures
            r == self.spec_lookup(host@) is Some,
    {
        let mut i: usize = 0;
        let mut found = false;
        while i < self.entries.len()
            invariant
                i <= self.entries@.len(),
                found == lookup_entries(self.entries@.take(i as int), host@) is Some,
            decreases self.entries@.len() - i,
        {
            assert(self.entries@.take(i + 1).drop_last() =~= self.entries@.take(i as int));
            if bytes_eq(self.entries[i].host.as_slice(), host) {
                found = true;
            }
            i = i + 1;
        }
        assert(self.entries@.take(i as int) =~= self.entries@);
        found
    }

    /// The addresses the table gives for `host`, in order.
    pub fn lookup(&self, host: &[u8]) -> (r: Option<Vec<IpAddr>>)
        ensures
            r is None <==> self.spec_lookup(host@) is None,
            r is Some ==> r->Some_0@ == self.spec_lookup(host@)->Some_0,
    {
        let mut i: usize = 0;
        let mut found = false;
        let mut acc: Vec<IpAddr> = Vec::new();
        while i < self.entries.len()
            invariant
                i <= self.entries@.len(),
                found == lookup_entries(self.entries@.take(i as int), host@) is Some,
                found ==> acc@ == lookup_entries(self.entries@.take(i as int), host@)->Some_0,
                !found ==> acc@.len() == 0,
            decreases self.entries@.len() - i,
        {
            assert(self.entries@.take(i + 1).drop_last() =~= self.entries@.take(i as int));
            if bytes_eq(self.entries[i].host.as_slice(), host) {
                let addrs = &self.entries[i].addresses;
                let ghost before = acc@;
                let mut j: usize = 0;
                while j < addrs.len()
                    invariant
                        j <= addrs@.len(),
                        acc@ == before + addrs@.take(j as int),
                    decreases addrs@.len() - j,
                {
                    acc.push(addrs[j]);
                    assert(addrs@.take(j + 1) =~= addrs@.take(j as int).push(addrs@[j as int]));
                    j = j + 1;
                }
                assert(addrs@.take(j as int) =~= addrs@);
                assert(before.len() == 0 ==> before + addrs@ =~= addrs@);
                found = true;
            }
            i = i + 1;
        }
        assert(self.entries@.take(i as int) =~= self.entries@);
        if found {
            Some(acc)
        } else {
            None
        }
    }

    /// Adds `address` to the addresses of `host`, after those it has.
    pub fn push_address(&mut self, host: Vec<u8>, address: IpAddr)
        ensures
            forall|h: Seq<u8>|
                #![trigger final(self).spec_lookup(h)]
                final(self).spec_lookup(h) == if h == host@ {
                    Some(
                        match old(self).spec_lookup(h) {
                            Some(p) => p.push(address),
                            None => seq![address],
                        },
                    )
                } else {
                    old(self).spec_lookup(h)
                },
    {
        let ghost old_entries = self.entries@;
        let mut addresses: Vec<IpAddr> = Vec::new();
        addresses.push(address);
        let entry = DnsEntry { host, addresses };
        self.entries.push(entry);
        assert(self.entries@.drop_last() =~= old_entries);
        assert forall|h: Seq<u8>| #![trigger self.spec_lookup(h)] true by {
            match lookup_entries(old_entries, h) {
                Some(p) => assert(p + seq![address] =~= p.push(address)),
                None => {},
            }
        }
    }

    /// Merges `other` into this table: each host of `other` gets exactly the
    /// addresses `other` gives it; every other host keeps its own.
    pub fn extend(&mut self, other: DnsOverrides)
        ensures
            forall|h: Seq<u8>|
                #![trigger final(self).spec_lookup(h)]
                final(self).spec_lookup(h) == match other.spec_lookup(h) {
                    Some(v) => Some(v),
                    None => old(self).spec_lookup(h),
                },
    {
        let mut previous: Vec<DnsEntry> = Vec::new();
        std::mem::swap(&mut self.entries, &mut previous);
        let ghost prev = previous@;
        let mut kept: Vec<DnsEntry> = Vec::new();
        let mut i: usize = 0;
        while i < previous.len()
            invariant
                prev == previous@,
                i <= prev.len(),
                forall|h: Seq<u8>|
                    #![trigger lookup_entries(kept@, h)]
                    lookup_entries(kept@, h) == if other.spec_lookup(h) is Some {
                        None
                    } else {
                        lookup_entries(prev.take(i as int), h)
                    },
            decreases prev.len() - i,
        {
            assert(prev.take(i + 1).drop_last() =~= prev.take(i as int));
            let ghost k0 = kept@;
            let skip = other.contains_host(previous[i].host.as_slice());
            if !skip {
                kept.push(previous[i].clone_entry());
                assert(kept@.drop_last() =~= k0);
            }
            assert forall|h: Seq<u8>| #![trigger lookup_entries(kept@, h)]
                lookup_entries(kept@, h) == if other.spec_lookup(h) is Some {
                    None
                } else {
                    lookup_entries(prev.take(i + 1), h)
                } by {
                assert(lookup_entries(k0, h) == if other.spec_lookup(h) is Some {
                    None
                } else {
                    lookup_entries(prev.take(i as int), h)
                });
                assert(prev.take(i + 1).last() == prev[i as int]);
            }
            i = i + 1;
        }
        assert(prev.take(i as int) =~= prev);
        let mut added = other.entries;
        let ghost oe = added@;
        let ghost k1 = kept@;
        kept.append(&mut added);
        assert forall|h: Seq<u8>| #![trigger lookup_entries(kept@, h)]
            lookup_entries(kept@, h) == match lookup_entries(oe, h) {
                Some(v) => Some(v),
                None => lookup_entries(prev, h),
            } by {
            lemma_lookup_concat(k1, oe, h);
        }
        self.entries = kept;
    }
}

/// ASCII '='.
pub const EQUALS_SIGN: u8 = 61;

/// ASCII ',': the default separator of override pairs.
pub const COMMA: u8 = 44;

/// What one override pair `host=address` denotes: a non-empty host (all
/// before the first '=') and an IP address (all after it, see
/// [`parse_ip_spec`]).
pub open spec fn parse_pair_spec(s: Seq<u8>) -> Option<(Seq<u8>, IpAddr)> {
    let k = first_index(s, EQUALS_SIGN);
    if 0 < k < s.len() {
        match parse_ip_spec(s.subrange(k + 1, s.len() as int)) {
            Some(a) => Some((s.subrange(0, k), a)),
            None => None,
        }
    } else {
        None
    }
}

/// The pairs that `segments` denote, in order, or `None` when one of them
/// is malformed.
pub open spec fn parse_pairs_spec(segments: Seq<Seq<u8>>) -> Option<Seq<(Seq<u8>, IpAddr)>>
    decreases segments.len(),
{
    if segments.len() == 0 {
        Some(Seq::empty())
    } else {
        match (parse_pairs_spec(segments.drop_last()), parse_pair_spec(segments.last())) {
            (Some(ps), Some(p)) => Some(ps.push(p)),
            _ => None,
        }
    }
}

/// What an override header value denotes: an empty value gives no pairs;
/// otherwise the value is a list of `host=address` pairs joined by
/// `separator`, every one of them well formed.
pub open spec fn parse_overrides_spec(value: Seq<u8>, separator: u8) -> Option<Seq<(Seq<u8>, IpAddr)>> {
    if value.len() == 0 {
        Some(Seq::empty())
    } else {
        parse_pairs_spec(split_on(value, separator))
    }
}

/// The addresses that `pairs` give for `host`, in order, or `None` when no
/// pair names it.
pub open spec fn pairs_lookup(pairs: Seq<(Seq<u8>, IpAddr)>, host: Seq<u8>) -> Option<Seq<IpAddr>>
    decreases pairs.len(),
{
    if pairs.len() == 0 {
        None
    } else {
        let prev = pairs_lookup(pairs.drop_last(), host);
        if pairs.last().0 == host {
            Some(
                match prev {
                    Some(p) => p.push(pairs.last().1),
                    None => seq![pairs.last().1],
                },
            )
        } else {
            prev
        }
    }
}

/// Parses one override pair (see [`parse_pair_spec`]).
pub fn parse_pair(s: &[u8]) -> (r: Option<(Vec<u8>, IpAddr)>)
    ensures
        r is None <==> parse_pair_spec(s@) is None,
        r is Some ==> (r->Some_0.0@, r->Some_0.1) == parse_pair_spec(s@)->Some_0,
{
    let k = find_byte(s, EQUALS_SIGN);
    if k == 0 || k >= s.len() {
        return None;
    }
    let address = copy_range(s, k + 1, s.len());
    match parse_ip(address.as_slice()) {
        Some(a) => Some((copy_range(s, 0, k), a)),
        None => None,
    }
}

proof fn lemma_parse_pairs_fails(segments: Seq<Seq<u8>>, j: int)
    requires
        0 <= j <= segments.len(),
        parse_pairs_spec(segments.take(j)) is None,
    ensures
        parse_pairs_spec(segments) is None,
    decreases segments.len() - j,
{
    if j < segments.len() {
        assert(segments.take(j + 1).drop_last() =~= segments.take(j));
        lemma_parse_pairs_fails(segments, j + 1);
    } else {
        assert(segments.take(j) =~= segments);
    }
}

/// Parses an override header value into a table (see
/// [`parse_overrides_spec`]): `None` exactly when the value is malformed;
/// otherwise each host maps to all addresses given for it, in order.
pub fn parse_dns_overrides(value: &[u8], separator: u8) -> (r: Option<DnsOverrides>)
    ensures
        r is None <==> parse_overrides_spec(value@, separator) is None,
        r is Some ==> forall|h: Seq<u8>|
            #![trigger r->Some_0.spec_lookup(h)]
            r->Some_0.spec_lookup(h) == pairs_lookup(parse_overrides_spec(value@, separator)->Some_0, h),
{
    let mut table = DnsOverrides::new();
    if value.len() == 0 {
        return Some(table);
    }
    let segments = split_bytes(value, separator);
    let ghost segs = split_on(value@, separator);
    let ghost mut pairs: Seq<(Seq<u8>, IpAddr)> = Seq::empty();
    assert(segs.take(0) =~= Seq::<Seq<u8>>::empty());
    let mut i: usize = 0;
    while i < segments.len()
        invariant
            value@.len() > 0,
            segs == split_on(value@, separator),
            segments@.len() == segs.len(),
            forall|j: int| 0 <= j < segments@.len() ==> #[trigger] segments@[j]@ == segs[j],
            i <= segs.len(),
            parse_pairs_spec(segs.take(i as int)) == Some(pairs),
            forall|h: Seq<u8>| #![trigger table.spec_lookup(h)] table.spec_lookup(h) == pairs_lookup(pairs, h),
        decreases segs.len() - i,
    {
        assert(segs.take(i + 1).drop_last() =~= segs.take(i as int));
        assert(segs.take(i + 1).last() == segments@[i as int]@);
        match parse_pair(segments[i].as_slice()) {
            None => {
                proof {
                    assert(parse_pair_spec(segs.take(i + 1).last()) is None);
                    assert(parse_pairs_spec(segs.take(i + 1)) is None);
                    lemma_parse_pairs_fails(segs, i + 1);
                }
                return None;
            },
            Some((host, address)) => {
                let ghost p = (host@, address);
                table.push_address(host, address);
                proof {
                    assert(pairs.push(p).drop_last() =~= pairs);
                    pairs = pairs.push(p);
                }
            },
        }
        i = i + 1;
    }
    assert(segs.take(i as int) =~= segs);
    Some(table)
}

impl DnsEntry {
    /// A copy of this entry.
    pub fn clone_entry(&self) -> (r: DnsEntry)
        ensures
            r.host@ == self.host@,
            r.addresses@ == self.addresses@,
    {
        let mut addresses: Vec<IpAddr> = Vec::new();
        let mut j: usize = 0;
        while j < self.addresses.len()
            invariant
                j <= self.addresses@.len(),
                addresses@ == self.addresses@.take(j as int),
            decreases self.addresses@.len() - j,
        {
            addresses.push(self.addresses[j]);
            assert(self.addresses@.take(j + 1) =~= self.addresses@.take(j as int).push(self.addresses@[j as int]));
            j = j + 1;
        }
        assert(self.addresses@.take(j as int) =~= self.addresses@);
        DnsEntry { host: copy_bytes(self.host.as_slice()), addresses }
    }
}

} // verus!
