//! Byte-level scanning used by the identifier table parser.
use vstd::prelude::*;

verus! {

/// Index of the first byte of `s` that equals `c` (when `eq`) or differs from
/// it (when `!eq`); `s.len()` when there is none.
pub open spec fn first_where(s: Seq<u8>, c: u8, eq: bool) -> nat
    decreases s.len(),
{
    if s.len() == 0 {
        0
    } else if (s[0] == c) == eq {
        0
    } else {
        1 + first_where(s.drop_first(), c, eq)
    }
}

/// Length of `s` once every trailing `c` is dropped.
pub open spec fn keep_before_trailing(s: Seq<u8>, c: u8) -> nat
    decreases s.len(),
{
    if s.len() == 0 {
        0
    } else if s.last() == c {
        keep_before_trailing(s.drop_last(), c)
    } else {
        s.len()
    }
}

/// `s` with every leading and trailing `c` removed.
pub open spec fn trim_byte(s: Seq<u8>, c: u8) -> Seq<u8> {
    let t = s.skip(first_where(s, c, false) as int);
    t.take(keep_before_trailing(t, c) as int)
}

/// `first_where` is the index before which no byte qualifies and at which
/// one does, or the end.
pub proof fn lemma_first_where(s: Seq<u8>, c: u8, eq: bool, k: int)
    requires
        0 <= k <= s.len(),
        forall|j: int| 0 <= j < k ==> (s[j] == c) != eq,
        k < s.len() ==> (s[k] == c) == eq,
    ensures
        first_where(s, c, eq) == k,
    decreases s.len(),
{
    if s.len() > 0 && k > 0 {
        lemma_first_where(s.drop_first(), c, eq, k - 1);
    }
}

/// `keep_before_trailing` is the index from which every byte is `c` and
/// before which the last byte is not.
pub proof fn lemma_keep_before_trailing(s: Seq<u8>, c: u8, m: int)
    requires
        0 <= m <= s.len(),
        forall|j: int| m <= j < s.len() ==> s[j] == c,
        m > 0 ==> s[m - 1] != c,
    ensures
        keep_before_trailing(s, c) == m,
    decreases s.len(),
{
    if s.len() > 0 && m < s.len() {
        lemma_keep_before_trailing(s.drop_last(), c, m);
    }
}

/// The first index at or after `from` whose byte equals `c` (when `eq`) or
/// differs from it (when `!eq`); `s.len()` when there is none.
pub fn index_where(s: &[u8], from: usize, c: u8, eq: bool) -> (k: usize)
    requires
        from <= s@.len(),
    ensures
        from <= k <= s@.len(),
        k - from == first_where(s@.skip(from as int), c, eq),
{
    let mut k: usize = from;
    while k < s.len() && (s[k] == c) != eq
        invariant
            from <= k <= s@.len(),
            forall|j: int| from <= j < k ==> (s@[j] == c) != eq,
        decreases s@.len() - k,
    {
        k = k + 1;
    }
    proof {
        lemma_first_where(s@.skip(from as int), c, eq, k - from);
    }
    k
}

/// A copy of `s[lo..hi]`.
pub fn copy_range(s: &[u8], lo: usize, hi: usize) -> (r: Vec<u8>)
    requires
        lo <= hi <= s@.len(),
    ensures
        r@ == s@.subrange(lo as int, hi as int),
{
    let mut r: Vec<u8> = Vec::new();
    let mut i: usize = lo;
    while i < hi
        invariant
            lo <= i <= hi <= s@.len(),
            r@ == s@.subrange(lo as int, i as int),
        decreases hi - i,
    {
        r.push(s[i]);
        i = i + 1;
        assert(r@ =~= s@.subrange(lo as int, i as int));
    }
    r
}

/// `s` with every leading and trailing `c` removed.
pub fn trim(s: &[u8], c: u8) -> (r: Vec<u8>)
    ensures
        r@ == trim_byte(s@, c),
{
    let lo = index_where(s, 0, c, false);
    assert(s@.skip(0) =~= s@);
    let mut hi: usize = s.len();
    while hi > lo && s[hi - 1] == c
        invariant
            lo <= hi <= s@.len(),
            forall|j: int| hi <= j < s@.len() ==> s@[j] == c,
        decreases hi,
    {
        hi = hi - 1;
    }
    proof {
        let t = s@.skip(lo as int);
        lemma_keep_before_trailing(t, c, hi - lo);
        assert(t.take(hi - lo) =~= s@.subrange(lo as int, hi as int));
    }
    copy_range(s, lo, hi)
}

/// Whether `s` begins with `prefix`.
pub fn starts_with(s: &[u8], prefix: &[u8]) -> (r: bool)
    ensures
        r == (prefix@.len() <= s@.len() && s@.take(prefix@.len() as int) == prefix@),
{
    if prefix.len() > s.len() {
        return false;
    }
    let mut i: usize = 0;
    while i < prefix.len()
        invariant
            i <= prefix@.len() <= s@.len(),
            forall|j: int| 0 <= j < i ==> s@[j] == prefix@[j],
        decreases prefix@.len() - i,
    {
        if s[i] != prefix[i] {
            assert(s@.take(prefix@.len() as int)[i as int] != prefix@[i as int]);
            return false;
        }
        i = i + 1;
    }
    assert(s@.take(prefix@.len() as int) =~= prefix@);
    true
}

/// Whether `a` and `b` hold the same bytes.
pub fn bytes_eq(a: &[u8], b: &[u8]) -> (r: bool)
    ensures
        r == (a@ == b@),
{
    if a.len() != b.len() {
        return false;
    }
    let mut i: usize = 0;
    while i < a.len()
        invariant
            i <= a@.len() == b@.len(),
            forall|j: int| 0 <= j < i ==> a@[j] == b@[j],
        decreases a@.len() - i,
    {
        if a[i] != b[i] {
            return false;
        }
        i = i + 1;
    }
    assert(a@ =~= b@);
    true
}

} // verus!
