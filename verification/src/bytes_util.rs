//! Byte-sequence helpers shared by the URI parser, the topic filter and the
//! wire codec: equality and prefix tests over `&[u8]`, and cloning with a
//! view-level contract.

use vstd::prelude::*;

verus! {

/// Byte-exact equality of two slices.
pub fn bytes_eq(a: &[u8], b: &[u8]) -> (r: bool)
    ensures
        r == (a@ == b@),
{
    if a.len() != b.len() {
        assert(a@ != b@) by {
            assert(a@.len() != b@.len());
        }
        return false;
    }
    let n: usize = a.len();
    let mut i: usize = 0;
    while i < n
        invariant
            n == a@.len(),
            n == b@.len(),
            0 <= i <= n,
            forall|j: int| 0 <= j < i ==> a@[j] == b@[j],
        decreases n - i,
    {
        if *vstd::slice::slice_index_get(a, i) != *vstd::slice::slice_index_get(b, i) {
            return false;
        }
        i = i + 1;
    }
    assert(a@ =~= b@);
    true
}

/// Does `whole` start with `prefix`, byte for byte?
pub fn bytes_starts_with(whole: &[u8], prefix: &[u8]) -> (r: bool)
    ensures
        r == prefix@.is_prefix_of(whole@),
{
    if whole.len() < prefix.len() {
        assert(!prefix@.is_prefix_of(whole@)) by {
            assert(whole@.len() < prefix@.len());
        }
        return false;
    }
    let n: usize = prefix.len();
    let mut i: usize = 0;
    while i < n
        invariant
            n == prefix@.len(),
            n <= whole@.len(),
            0 <= i <= n,
            forall|j: int| 0 <= j < i ==> whole@[j] == prefix@[j],
        decreases n - i,
    {
        if *vstd::slice::slice_index_get(whole, i) != *vstd::slice::slice_index_get(prefix, i) {
            assert(whole@.subrange(0, n as int)[i as int] != prefix@[i as int]);
            return false;
        }
        i = i + 1;
    }
    assert(prefix@ =~= whole@.subrange(0, n as int));
    true
}

/// Clone a byte vector, keeping its view.
pub fn clone_bytes(v: &Vec<u8>) -> (r: Vec<u8>)
    ensures
        r@ == v@,
{
    let r = v.clone();
    assert(r@ =~= v@);
    r
}

/// Clone a list of byte frames, keeping the view of every frame.
pub fn clone_frames(frames: &Vec<Vec<u8>>) -> (r: Vec<Vec<u8>>)
    ensures
        r.deep_view() == frames.deep_view(),
{
    let mut r: Vec<Vec<u8>> = Vec::new();
    let mut i: usize = 0;
    while i < frames.len()
        invariant
            0 <= i <= frames@.len(),
            r@.len() == i,
            forall|j: int| 0 <= j < i ==> r@[j]@ == frames@[j]@,
        decreases frames@.len() - i,
    {
        r.push(clone_bytes(&frames[i]));
        i = i + 1;
    }
    assert(r.deep_view() =~= frames.deep_view());
    r
}

/// For byte vectors the deep view and the plain view coincide.
pub proof fn lemma_bytes_deep_view(v: Vec<u8>)
    ensures
        v.deep_view() == v@,
{
    assert(v.deep_view() =~= v@);
}

/// Clone the frames from position `from` on, keeping the view of each.
pub fn clone_frames_from(frames: &Vec<Vec<u8>>, from: usize) -> (r: Vec<Vec<u8>>)
    requires
        from <= frames@.len(),
    ensures
        r.deep_view() == frames.deep_view().skip(from as int),
{
    let mut r: Vec<Vec<u8>> = Vec::new();
    let mut i: usize = from;
    while i < frames.len()
        invariant
            from <= i <= frames@.len(),
            r@.len() == i - from,
            forall|j: int| 0 <= j < r@.len() ==> r@[j]@ == frames@[from + j]@,
        decreases frames@.len() - i,
    {
        r.push(clone_bytes(&frames[i]));
        i = i + 1;
    }
    assert(r.deep_view() =~= frames.deep_view().skip(from as int));
    r
}

} // verus!
