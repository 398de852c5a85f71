//! A map of HTTP header names to values.
//!
//! Names are compared byte for byte; as in HTTP/2, they are expected in
//! lower case.
use vstd::prelude::*;

use crate::bytes::bytes_eq;

verus! {

/// One header line.
#[derive(Clone, Debug)]
pub struct HeaderEntry {
    pub name: Vec<u8>,
    pub value: Vec<u8>,
}

/// The value that `entries` give for `name`: that of the last entry with
/// that name.
pub open spec fn header_value(entries: Seq<HeaderEntry>, name: Seq<u8>) -> Option<Seq<u8>>
    decreases entries.len(),
{
    if entries.len() == 0 {
        None
    } else if entries.last().name@ == name {
        Some(entries.last().value@)
    } else {
        header_value(entries.drop_last(), name)
    }
}

/// Header map of a request or a response: at most one value per name.
#[derive(Clone, Debug)]
pub struct HeaderMap {
    entries: Vec<HeaderEntry>,
}

impl HeaderMap {
    /// The value of header `name`, if present.
    pub closed spec fn spec_get(&self, name: Seq<u8>) -> Option<Seq<u8>> {
        header_value(self.entries@, name)
    }

    /// An empty header map.
    pub fn new() -> (r: HeaderMap)
        ensures
            forall|n: Seq<u8>| r.spec_get(n) is None,
    {
        HeaderMap { entries: Vec::new() }
    }

    /// The value of header `name`, if present.
    pub fn get(&self, name: &[u8]) -> (r: Option<&Vec<u8>>)
        ensures
            r is None <==> self.spec_get(name@) is None,
            r is Some ==> r->Some_0@ == self.spec_get(name@)->Some_0,
    {
        let mut i: usize = 0;
        let mut found: Option<usize> = None;
        while i < self.entries.len()
            invariant
                i <= self.entries@.len(),
                found is None ==> header_value(self.entries@.take(i as int), name@) is None,
                found is Some ==> {
                    &&& found->Some_0 < i
                    &&& header_value(self.entries@.take(i as int), name@) == Some(
                        self.entries@[found->Some_0 as int].value@,
                    )
                },
            decreases self.entries@.len() - i,
        {
            assert(self.entries@.take(i + 1).drop_last() =~= self.entries@.take(i as int));
            if bytes_eq(self.entries[i].name.as_slice(), name) {
                found = Some(i);
            }
            i = i + 1;
        }
        assert(self.entries@.take(i as int) =~= self.entries@);
        match found {
            Some(k) => Some(&self.entries[k].value),
            None => None,
        }
    }

    /// Whether header `name` is present.
    pub fn contains_key(&self, name: &[u8]) -> (r: bool)
        ensures
            r == self.spec_get(name@) is Some,
    {
        self.get(name).is_some()
    }

    /// Sets header `name` to `value`, replacing any value it had.
    pub fn insert(&mut self, name: Vec<u8>, value: Vec<u8>)
        ensures
            forall|n: Seq<u8>|
                #![trigger final(self).spec_get(n)]
                final(self).spec_get(n) == if n == name@ {
                    Some(value@)
                } else {
                    old(self).spec_get(n)
                },
    {
        let mut previous: Vec<HeaderEntry> = Vec::new();
        std::mem::swap(&mut self.entries, &mut previous);
        let ghost prev = previous@;
        let mut kept: Vec<HeaderEntry> = Vec::new();
        let mut i: usize = 0;
        while i < previous.len()
            invariant
                prev == previous@,
                i <= prev.len(),
                forall|n: Seq<u8>|
                    #![trigger header_value(kept@, n)]
                    header_value(kept@, n) == if n == name@ {
                        None
                    } else {
                        header_value(prev.take(i as int), n)
                    },
            decreases prev.len() - i,
        {
            assert(prev.take(i + 1).drop_last() =~= prev.take(i as int));
            let ghost k0 = kept@;
            if !bytes_eq(previous[i].name.as_slice(), name.as_slice()) {
                let e = HeaderEntry {
                    name: crate::bytes::copy_bytes(previous[i].name.as_slice()),
                    value: crate::bytes::copy_bytes(previous[i].value.as_slice()),
                };
                kept.push(e);
                assert(kept@.drop_last() =~= k0);
            }
            assert forall|n: Seq<u8>| #![trigger header_value(kept@, n)]
                header_value(kept@, n) == if n == name@ {
                    None
                } else {
                    header_value(prev.take(i + 1), n)
                } by {
                assert(header_value(k0, n) == if n == name@ {
                    None
                } else {
                    header_value(prev.take(i as int), n)
                });
                assert(prev.take(i + 1).last() == prev[i as int]);
            }
            i = i + 1;
        }
        assert(prev.take(i as int) =~= prev);
        let ghost k1 = kept@;
        kept.push(HeaderEntry { name, value });
        assert(kept@.drop_last() =~= k1);
        assert forall|n: Seq<u8>| #![trigger header_value(kept@, n)]
            header_value(kept@, n) == if n == name@ {
                Some(value@)
            } else {
                header_value(prev, n)
            } by {
            assert(header_value(k1, n) == if n == name@ {
                None
            } else {
                header_value(prev, n)
            });
        }
        self.entries = kept;
    }
}

} // verus!
