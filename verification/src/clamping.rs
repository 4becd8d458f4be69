//! Clamping: the bit mask that turns any 56 bytes into a scalar of the shape
//! the ladder expects, a multiple of four with its top bit set.

use vstd::prelude::*;

verus! {

/// The clamped form of a 56-byte string: the two lowest bits of the first
/// byte cleared, the highest bit of the last byte set, all else kept.
pub open spec fn clamped(bytes: Seq<u8>) -> Seq<u8>
    recommends
        bytes.len() == 56,
{
    bytes.update(0, bytes[0] & 252).update(55, bytes[55] | 128)
}

/// Whether a byte string is a clamped scalar.
pub open spec fn is_clamped(bytes: Seq<u8>) -> bool {
    &&& bytes.len() == 56
    &&& bytes[0] & 3 == 0
    &&& bytes[55] & 128 == 128
}

/// Clamping always yields a clamped scalar.
pub proof fn lemma_clamped_is_clamped(bytes: Seq<u8>)
    requires
        bytes.len() == 56,
    ensures
        is_clamped(clamped(bytes)),
{
    let low = bytes[0];
    let high = bytes[55];
    assert((low & 252) & 3 == 0) by (bit_vector);
    assert((high | 128) & 128 == 128) by (bit_vector);
}

/// Clamping leaves a string unchanged exactly when it is already clamped.
pub proof fn lemma_clamp_fixes_clamped_only(bytes: Seq<u8>)
    requires
        bytes.len() == 56,
    ensures
        clamped(bytes) == bytes <==> is_clamped(bytes),
{
    let low = bytes[0];
    let high = bytes[55];
    assert(low & 252 == low <==> low & 3 == 0) by (bit_vector);
    assert(high | 128 == high <==> high & 128 == 128) by (bit_vector);
    if is_clamped(bytes) {
        assert(clamped(bytes) =~= bytes);
    }
    if clamped(bytes) == bytes {
        assert(clamped(bytes)[0] == low & 252);
        assert(clamped(bytes)[55] == high | 128);
    }
}

/// Clamping is idempotent: clamping a clamped string changes nothing.
pub proof fn lemma_clamp_idempotent(bytes: Seq<u8>)
    requires
        bytes.len() == 56,
    ensures
        clamped(clamped(bytes)) == clamped(bytes),
{
    lemma_clamped_is_clamped(bytes);
    lemma_clamp_fixes_clamped_only(clamped(bytes));
}

} // verus!
