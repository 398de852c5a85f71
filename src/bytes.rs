//! Small helpers on byte strings.
use vstd::prelude::*;

verus! {

/// Whether two byte strings are equal.
pub fn bytes_eq(a: &[u8], b: &[u8]) -> (r: bool)
    ensures
        r == (a@ == b@),
{
    if a.len() != b.len() {
        return false;
    }
    let mut i: usize = 0;
    while i < a.len()
        invariant
            a@.len() == b@.len(),
            i <= a@.len(),
            a@.subrange(0, i as int) == b@.subrange(0, i as int),
        decreases a@.len() - i,
    {
        if a[i] != b[i] {
            assert(a@[i as int] != b@[i as int]);
            return false;
        }
        assert(a@.subrange(0, i + 1) =~= a@.subrange(0, i as int).push(a@[i as int]));
        assert(b@.subrange(0, i + 1) =~= b@.subrange(0, i as int).push(b@[i as int]));
        i = i + 1;
    }
    assert(a@ =~= a@.subrange(0, i as int));
    assert(b@ =~= b@.subrange(0, i as int));
    true
}

/// A copy of a byte string.
pub fn copy_bytes(a: &[u8]) -> (r: Vec<u8>)
    ensures
        r@ == a@,
{
    let mut out: Vec<u8> = Vec::new();
    let mut i: usize = 0;
    while i < a.len()
        invariant
            i <= a@.len(),
            out@ == a@.subrange(0, i as int),
        decreases a@.len() - i,
    {
        out.push(a[i]);
        assert(a@.subrange(0, i + 1) =~= a@.subrange(0, i as int).push(a@[i as int]));
        i = i + 1;
    }
    assert(a@ =~= a@.subrange(0, i as int));
    out
}

/// A copy of `a[from..to]`.
pub fn copy_range(a: &[u8], from: usize, to: usize) -> (r: Vec<u8>)
    requires
        from <= to <= a@.len(),
    ensures
        r@ == a@.subrange(from as int, to as int),
{
    let mut out: Vec<u8> = Vec::new();
    let mut i: usize = from;
    while i < to
        invariant
            from <= i <= to <= a@.len(),
            out@ == a@.subrange(from as int, i as int),
        decreases to - i,
    {
        out.push(a[i]);
        assert(a@.subrange(from as int, i + 1) =~= a@.subrange(from as int, i as int).push(a@[i as int]));
        i = i + 1;
    }
    out
}

/// Index of the first `b` in `s`, or `s.len()` when there is none.
pub open spec fn first_index(s: Seq<u8>, b: u8) -> int
    decreases s.len(),
{
    if s.len() == 0 {
        0
    } else if s[0] == b {
        0
    } else {
        1 + first_index(s.drop_first(), b)
    }
}

pub proof fn lemma_first_index(s: Seq<u8>, b: u8, k: int)
    requires
        0 <= k <= s.len(),
        forall|j: int| 0 <= j < k ==> s[j] != b,
        k == s.len() || s[k] == b,
    ensures
        first_index(s, b) == k,
    decreases k,
{
    if k > 0 {
        lemma_first_index(s.drop_first(), b, k - 1);
    }
}

/// Index of the first `b` in `s`, or `s.len()` when there is none.
pub fn find_byte(s: &[u8], b: u8) -> (r: usize)
    ensures
        r == first_index(s@, b),
{
    let mut i: usize = 0;
    while i < s.len()
        invariant
            i <= s@.len(),
            forall|j: int| 0 <= j < i ==> s@[j] != b,
        decreases s@.len() - i,
    {
        if s[i] == b {
            proof { lemma_first_index(s@, b, i as int); }
            return i;
        }
        i = i + 1;
    }
    proof { lemma_first_index(s@, b, i as int); }
    i
}

/// `s` cut at every `sep`: the pieces between separators, in order (one
/// piece, `s` itself, when `s` holds no separator).
pub open spec fn split_on(s: Seq<u8>, sep: u8) -> Seq<Seq<u8>>
    decreases s.len(),
{
    let k = first_index(s, sep);
    if k < 0 || k >= s.len() {
        seq![s]
    } else {
        seq![s.subrange(0, k)] + split_on(s.subrange(k + 1, s.len() as int), sep)
    }
}

proof fn lemma_first_index_bounds(s: Seq<u8>, b: u8)
    ensures
        0 <= first_index(s, b) <= s.len(),
    decreases s.len(),
{
    if s.len() > 0 && s[0] != b {
        lemma_first_index_bounds(s.drop_first(), b);
    }
}

/// Splits `s` at every `sep` (see [`split_on`]).
pub fn split_bytes(s: &[u8], sep: u8) -> (r: Vec<Vec<u8>>)
    ensures
        r@.len() == split_on(s@, sep).len(),
        forall|i: int| 0 <= i < r@.len() ==> #[trigger] r@[i]@ == split_on(s@, sep)[i],
{
    let mut out: Vec<Vec<u8>> = Vec::new();
    let mut start: usize = 0;
    let mut i: usize = 0;
    assert(s@.subrange(0, s@.len() as int) =~= s@);
    while i < s.len()
        invariant
            start <= i <= s@.len(),
            forall|j: int| start <= j < i ==> s@[j] != sep,
            out@.len() + split_on(s@.subrange(start as int, s@.len() as int), sep).len() == split_on(s@, sep).len(),
            forall|j: int| 0 <= j < out@.len() ==> #[trigger] out@[j]@ == split_on(s@, sep)[j],
            forall|j: int| 0 <= j < split_on(s@.subrange(start as int, s@.len() as int), sep).len()
                ==> #[trigger] split_on(s@.subrange(start as int, s@.len() as int), sep)[j]
                    == split_on(s@, sep)[out@.len() + j],
        decreases s@.len() - i,
    {
        if s[i] == sep {
            let ghost rest = s@.subrange(start as int, s@.len() as int);
            let ghost old_start = start;
            proof {
                lemma_first_index(rest, sep, i - start);
                assert(rest.subrange(0, i - start) =~= s@.subrange(start as int, i as int));
                assert(rest.subrange(i - start + 1, rest.len() as int) =~= s@.subrange(i + 1, s@.len() as int));
                assert(split_on(rest, sep)[0] == s@.subrange(start as int, i as int));
            }
            let piece = copy_range(s, start, i);
            out.push(piece);
            start = i + 1;
            proof {
                let next = s@.subrange(start as int, s@.len() as int);
                assert(split_on(rest, sep) == seq![s@.subrange(old_start as int, i as int)] + split_on(next, sep));
                assert forall|j: int| 0 <= j < split_on(next, sep).len() implies
                    #[trigger] split_on(next, sep)[j] == split_on(s@, sep)[out@.len() + j] by {
                    assert(split_on(rest, sep)[j + 1] == split_on(next, sep)[j]);
                }
            }
        }
        i = i + 1;
    }
    let ghost rest = s@.subrange(start as int, s@.len() as int);
    proof {
        lemma_first_index(rest, sep, rest.len() as int);
        assert(split_on(rest, sep) == seq![rest]);
        assert(split_on(rest, sep)[0] == rest);
    }
    let piece = copy_range(s, start, s.len());
    out.push(piece);
    out
}

} // verus!
