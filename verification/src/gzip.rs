//! The gzip magic number, and the test for it at the head of a buffer.

use vstd::prelude::*;

verus! {

/// Magic number of gzip defined in [RFC 1952].
///
/// [RFC 1952]: https://datatracker.ietf.org/doc/html/rfc1952
pub const GZIP_MAGIC_NUMBER: [u8; 2] = [0x1f, 0x8b];

/// The bytes of [`GZIP_MAGIC_NUMBER`] as a sequence.
pub open spec fn gzip_magic() -> Seq<u8> {
    seq![0x1fu8, 0x8bu8]
}

/// `data` begins with the gzip magic number.
///
/// Only the first two bytes count: nothing is said of the rest of the
/// buffer, which need not be a gzip stream at all.
pub open spec fn has_gzip_magic(data: Seq<u8>) -> bool {
    gzip_magic().is_prefix_of(data)
}

/// The prefix test written out byte by byte: a buffer begins with the magic
/// number exactly when it holds at least two bytes, `0x1f` and then `0x8b`.
pub proof fn lemma_has_gzip_magic(data: Seq<u8>)
    ensures
        has_gzip_magic(data) <==> (data.len() >= 2 && data[0] == 0x1f && data[1] == 0x8b),
{
    if data.len() >= 2 {
        let head = data.subrange(0, 2);
        assert(head[0] == data[0] && head[1] == data[1]);
    }
}

/// Returns `true` if `data` begins with `prefix`, and `false` otherwise.
///
/// An empty `prefix` is found at the head of every buffer; a `prefix` longer
/// than `data` is found in none.
pub fn starts_with(data: &[u8], prefix: &[u8]) -> (found: bool)
    ensures
        found == prefix@.is_prefix_of(data@),
{
    if data.len() < prefix.len() {
        return false;
    }
    let mut i: usize = 0;
    while i < prefix.len()
        invariant
            prefix.len() <= data.len(),
            i <= prefix.len(),
            forall|k: int| 0 <= k < i ==> data@[k] == prefix@[k],
        decreases prefix.len() - i,
    {
        if data[i] != prefix[i] {
            return false;
        }
        i += 1;
    }
    true
}

/// Returns `true` if `data` begins with [`GZIP_MAGIC_NUMBER`], and `false`
/// otherwise. A buffer of fewer than two bytes never does.
pub fn starts_with_gzip_magic(data: &[u8]) -> (found: bool)
    ensures
        found == has_gzip_magic(data@),
        data@.len() < 2 ==> !found,
{
    starts_with(data, &GZIP_MAGIC_NUMBER)
}

} // verus!
