//! NUL bytes in byte sequences: where the first one lies, what the region up
//! to it is, and what it means for a sequence to be NUL-terminated.

use vstd::prelude::*;

verus! {

/// `s` holds a NUL byte somewhere.
pub open spec fn has_nul(s: Seq<u8>) -> bool {
    exists|i: int| 0 <= i < s.len() && s[i] == 0u8
}

/// `i` is the position of the first NUL byte of `s`.
pub open spec fn is_first_nul(s: Seq<u8>, i: int) -> bool {
    &&& 0 <= i < s.len()
    &&& s[i] == 0u8
    &&& forall|j: int| 0 <= j < i ==> s[j] != 0u8
}

/// The position of the first NUL byte of `s`. Meaningful only where
/// `has_nul(s)`; see [`lemma_first_nul`].
pub open spec fn first_nul(s: Seq<u8>) -> int {
    choose|i: int| is_first_nul(s, i)
}

/// The bytes of `s` from its start up to its first NUL byte, that byte
/// being the last one of the region.
pub open spec fn through_first_nul(s: Seq<u8>) -> Seq<u8> {
    s.subrange(0, first_nul(s) + 1)
}

/// `s` ends with a NUL byte and holds no other: the shape of a C string
/// together with its terminator.
pub open spec fn is_nul_terminated(s: Seq<u8>) -> bool {
    s.len() > 0 && is_first_nul(s, s.len() - 1)
}

/// `s` followed by one NUL byte.
pub open spec fn with_nul(s: Seq<u8>) -> Seq<u8> {
    s.push(0u8)
}

/// A sequence has at most one first NUL byte.
pub proof fn lemma_first_nul_unique(s: Seq<u8>, i: int, j: int)
    requires
        is_first_nul(s, i),
        is_first_nul(s, j),
    ensures
        i == j,
{
}

/// A NUL byte at `k` puts a first NUL byte at or before `k`.
pub proof fn lemma_first_nul_before(s: Seq<u8>, k: int)
    requires
        0 <= k < s.len(),
        s[k] == 0u8,
    ensures
        exists|i: int| 0 <= i <= k && is_first_nul(s, i),
    decreases k,
{
    if forall|j: int| 0 <= j < k ==> s[j] != 0u8 {
        assert(is_first_nul(s, k));
    } else {
        let j = choose|j: int| 0 <= j < k && s[j] == 0u8;
        lemma_first_nul_before(s, j);
    }
}

/// Where `s` holds a NUL byte, `first_nul(s)` is the position of the first
/// one; where it holds none, no position is.
pub proof fn lemma_first_nul(s: Seq<u8>)
    ensures
        has_nul(s) <==> is_first_nul(s, first_nul(s)),
        has_nul(s) <==> exists|i: int| is_first_nul(s, i),
{
    if has_nul(s) {
        let k = choose|k: int| 0 <= k < s.len() && s[k] == 0u8;
        lemma_first_nul_before(s, k);
    }
}

/// Any position known to be the first NUL byte is `first_nul(s)`.
pub proof fn lemma_first_nul_is(s: Seq<u8>, i: int)
    requires
        is_first_nul(s, i),
    ensures
        has_nul(s),
        first_nul(s) == i,
        through_first_nul(s) == s.subrange(0, i + 1),
{
    lemma_first_nul_unique(s, i, first_nul(s));
}

/// The region up to the first NUL byte is NUL-terminated, and cutting it
/// again changes nothing.
pub proof fn lemma_through_first_nul_terminated(s: Seq<u8>)
    requires
        has_nul(s),
    ensures
        is_nul_terminated(through_first_nul(s)),
        through_first_nul(through_first_nul(s)) == through_first_nul(s),
{
    lemma_first_nul(s);
    let t = through_first_nul(s);
    assert(is_first_nul(t, t.len() - 1));
    lemma_first_nul_is(t, t.len() - 1);
    assert(t.subrange(0, t.len() as int) =~= t);
}

/// A NUL-terminated sequence is its own region up to the first NUL byte.
pub proof fn lemma_terminated_is_whole(s: Seq<u8>)
    requires
        is_nul_terminated(s),
    ensures
        has_nul(s),
        through_first_nul(s) == s,
{
    lemma_first_nul_is(s, s.len() - 1);
    assert(s.subrange(0, s.len() as int) =~= s);
}

/// Appending a NUL byte to a sequence that holds none gives a
/// NUL-terminated sequence, and to any other sequence it does not.
pub proof fn lemma_with_nul_terminated(s: Seq<u8>)
    ensures
        is_nul_terminated(with_nul(s)) <==> !has_nul(s),
        with_nul(s).len() == s.len() + 1,
        with_nul(s).drop_last() == s,
{
    let t = with_nul(s);
    assert(t.drop_last() =~= s);
    if has_nul(s) {
        let k = choose|k: int| 0 <= k < s.len() && s[k] == 0u8;
        assert(t[k] == 0u8);
    } else {
        assert forall|j: int| 0 <= j < t.len() - 1 implies t[j] != 0u8 by {
            assert(t[j] == s[j]);
        }
    }
}

/// A concatenation holds a NUL byte exactly where one of its parts does.
pub proof fn lemma_has_nul_concat(a: Seq<u8>, b: Seq<u8>)
    ensures
        has_nul(a + b) <==> has_nul(a) || has_nul(b),
{
    let ab = a + b;
    if has_nul(a) {
        let i = choose|i: int| 0 <= i < a.len() && a[i] == 0u8;
        assert(ab[i] == 0u8);
    }
    if has_nul(b) {
        let i = choose|i: int| 0 <= i < b.len() && b[i] == 0u8;
        assert(ab[a.len() + i] == 0u8);
    }
    if has_nul(ab) {
        let i = choose|i: int| 0 <= i < ab.len() && ab[i] == 0u8;
        if i < a.len() {
            assert(a[i] == 0u8);
        } else {
            assert(b[i - a.len()] == 0u8);
        }
    }
}

/// The position of the first NUL byte of `bytes`, or `None` where it has
/// none.
pub fn find_nul(bytes: &[u8]) -> (r: Option<usize>)
    ensures
        r is Some <==> has_nul(bytes@),
        r matches Some(i) ==> is_first_nul(bytes@, i as int) && i as int == first_nul(bytes@),
{
    let mut pos: usize = 0;
    while pos < bytes.len()
        invariant
            pos <= bytes@.len(),
            forall|j: int| 0 <= j < pos ==> bytes@[j] != 0u8,
        decreases bytes@.len() - pos,
    {
        if bytes[pos] == 0 {
            proof {
                lemma_first_nul_is(bytes@, pos as int);
            }
            return Some(pos);
        }
        pos += 1;
    }
    None
}

/// Whether two byte regions hold the same bytes.
pub fn bytes_eq(a: &[u8], b: &[u8]) -> (r: bool)
    ensures
        r == (a@ == b@),
{
    if a.len() != b.len() {
        return false;
    }
    let mut pos: usize = 0;
    while pos < a.len()
        invariant
            a@.len() == b@.len(),
            pos <= a@.len(),
            forall|j: int| 0 <= j < pos ==> a@[j] == b@[j],
        decreases a@.len() - pos,
    {
        if a[pos] != b[pos] {
            return false;
        }
        pos += 1;
    }
    assert(a@ =~= b@);
    true
}

} // verus!
