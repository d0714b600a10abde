//! Byte strings on the wire.
//!
//! Fixed-width fields are written as they are. A field of variable length is
//! written by the messaging codec, which puts its length in front of it.

use maidsafe_utilities::serialisation::SerialisationError;
use vstd::bytes::{spec_u64_from_le_bytes, spec_u64_to_le_bytes, u64_from_le_bytes};
use vstd::prelude::*;
use vstd::slice::slice_subrange;

verus! {

/// Number of bytes that the codec puts in front of a byte string.
pub const LENGTH_PREFIX_LEN: usize = 8;

/// The error of `maidsafe_utilities::serialisation`. Nothing is known of its
/// values.
#[verifier::external_type_specification]
#[verifier::external_body]
pub struct ExSerialisationError(SerialisationError);

/// A byte string as the codec writes it: its length as eight bytes, least
/// significant first, then the bytes themselves.
pub open spec fn length_prefixed(data: Seq<u8>) -> Seq<u8> {
    spec_u64_to_le_bytes(data.len() as u64) + data
}

/// Whether the codec encodes the byte string `data`.
pub uninterp spec fn codec_accepts(data: Seq<u8>) -> bool;

/// Calls `maidsafe_utilities::serialisation::serialise` on a byte vector.
/// The codec is bincode without a size limit and with little-endian integers:
/// it writes a sequence as its length in a `u64` followed by its elements, and
/// a `u8` as itself. The contract claims that form of what is returned on
/// success. It does not claim success, only that the same bytes are always
/// either encoded or refused.
#[verifier::external_body]
pub(crate) fn serialise_bytes(data: &Vec<u8>) -> (encoded: Result<Vec<u8>, SerialisationError>)
    ensures
        encoded is Ok == codec_accepts(data@),
        encoded matches Ok(bytes) ==> bytes@ == length_prefixed(data@),
{
    maidsafe_utilities::serialisation::serialise(data)
}

/// A length prefix is eight bytes long and gives the length back.
pub proof fn lemma_length_prefix(len: u64)
    ensures
        spec_u64_to_le_bytes(len).len() == LENGTH_PREFIX_LEN,
        spec_u64_from_le_bytes(spec_u64_to_le_bytes(len)) == len,
{
    vstd::bytes::lemma_auto_spec_u64_to_from_le_bytes();
}

/// Eight bytes are the length prefix of the number that they spell.
pub proof fn lemma_length_prefix_unique(prefix: Seq<u8>)
    requires
        prefix.len() == LENGTH_PREFIX_LEN,
    ensures
        spec_u64_to_le_bytes(spec_u64_from_le_bytes(prefix)) == prefix,
{
    vstd::bytes::lemma_auto_spec_u64_to_from_le_bytes();
}

/// Appends `bytes` to `out`.
pub fn append_bytes(out: &mut Vec<u8>, bytes: &[u8])
    ensures
        final(out)@ == old(out)@ + bytes@,
{
    let mut i: usize = 0;
    while i < bytes.len()
        invariant
            i <= bytes@.len(),
            out@ == old(out)@ + bytes@.subrange(0, i as int),
        decreases bytes@.len() - i,
    {
        out.push(bytes[i]);
        i = i + 1;
    }
    assert(bytes@.subrange(0, i as int) == bytes@);
}

/// The `N` bytes of `bytes` from `start` on.
pub fn array_at<const N: usize>(bytes: &[u8], start: usize) -> (array: [u8; N])
    requires
        start + N <= bytes@.len(),
    ensures
        array@ == bytes@.subrange(start as int, start + N),
{
    proof {
        vstd::slice::axiom_spec_len(bytes);
    }
    let mut array: [u8; N] = [0u8; N];
    let mut i: usize = 0;
    while i < N
        invariant
            i <= N,
            start + N <= bytes@.len() <= usize::MAX,
            array@.len() == N,
            forall|k: int| 0 <= k < i ==> array@[k] == bytes@[start + k],
        decreases N - i,
    {
        array[i] = bytes[start + i];
        i = i + 1;
    }
    assert(array@ =~= bytes@.subrange(start as int, start + N));
    array
}

/// The number that the eight bytes of `bytes` from `start` on spell, least
/// significant byte first.
pub fn read_length_prefix(bytes: &[u8], start: usize) -> (len: u64)
    requires
        start + LENGTH_PREFIX_LEN <= bytes@.len(),
    ensures
        len == spec_u64_from_le_bytes(
            bytes@.subrange(start as int, start + LENGTH_PREFIX_LEN),
        ),
{
    proof {
        vstd::slice::axiom_spec_len(bytes);
    }
    u64_from_le_bytes(slice_subrange(bytes, start, start + LENGTH_PREFIX_LEN))
}

} // verus!
