//! Byte-vector helpers.

use vstd::prelude::*;

verus! {

/// Appends all of `src` to `dst`.
pub fn append_bytes(dst: &mut Vec<u8>, src: &[u8])
    ensures
        final(dst)@ == old(dst)@ + src@,
{
    let mut i: usize = 0;
    while i < src.len()
        invariant
            i <= src@.len(),
            dst@ == old(dst)@ + src@.subrange(0, i as int),
        decreases src@.len() - i,
    {
        dst.push(src[i]);
        i = i + 1;
        assert(src@.subrange(0, i as int) =~= src@.subrange(0, i - 1 as int).push(src@[i - 1]));
    }
    assert(src@.subrange(0, src@.len() as int) =~= src@);
}

/// A fresh vector holding `src[from..]`.
pub fn bytes_from(src: &[u8], from: usize) -> (r: Vec<u8>)
    requires
        from <= src@.len(),
    ensures
        r@ == src@.subrange(from as int, src@.len() as int),
{
    let mut r: Vec<u8> = Vec::new();
    let mut i: usize = from;
    while i < src.len()
        invariant
            from <= i <= src@.len(),
            r@ == src@.subrange(from as int, i as int),
        decreases src@.len() - i,
    {
        r.push(src[i]);
        i = i + 1;
        assert(src@.subrange(from as int, i as int) =~= src@.subrange(from as int, i - 1 as int).push(src@[i - 1]));
    }
    r
}

/// A copy of `src`.
pub fn copy_bytes(src: &[u8]) -> (r: Vec<u8>)
    ensures
        r@ == src@,
{
    let r = bytes_from(src, 0);
    assert(src@.subrange(0, src@.len() as int) =~= src@);
    r
}

/// Whether `data` begins with `prefix`.
pub open spec fn starts_with(data: Seq<u8>, prefix: Seq<u8>) -> bool {
    prefix.len() <= data.len() && data.subrange(0, prefix.len() as int) == prefix
}

/// `data` without a leading `prefix`; unchanged when it does not begin
/// with it.
pub open spec fn strip_prefix(data: Seq<u8>, prefix: Seq<u8>) -> Seq<u8> {
    if starts_with(data, prefix) {
        data.subrange(prefix.len() as int, data.len() as int)
    } else {
        data
    }
}

/// `data` without a leading `prefix`, or a copy of `data` when it does not
/// begin with it.
pub fn strip_prefix_bytes(data: &[u8], prefix: &[u8]) -> (r: Vec<u8>)
    ensures
        r@ == strip_prefix(data@, prefix@),
{
    if prefix.len() > data.len() {
        return copy_bytes(data);
    }
    let mut i: usize = 0;
    while i < prefix.len()
        invariant
            i <= prefix@.len() <= data@.len(),
            forall|j: int| 0 <= j < i ==> data@[j] == prefix@[j],
        decreases prefix@.len() - i,
    {
        if data[i] != prefix[i] {
            assert(data@.subrange(0, prefix@.len() as int)[i as int] != prefix@[i as int]);
            return copy_bytes(data);
        }
        i = i + 1;
    }
    assert(data@.subrange(0, prefix@.len() as int) =~= prefix@);
    bytes_from(data, prefix.len())
}

} // verus!
