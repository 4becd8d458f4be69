//! Scalar multiplication on the Montgomery form of Curve448.
//!
//! The field arithmetic and the ladder are those of the `ed448` crate. This
//! module is the one place where the library calls it.

use ed448::curve::MontgomeryPoint;
use ed448::Scalar;
use vstd::prelude::*;

verus! {

/// The u-coordinate that the ladder of the `ed448` crate computes from a
/// scalar and a u-coordinate, each given as 56 little-endian bytes.
///
/// The ladder runs over all 448 bits of the scalar as they are given: it
/// neither clamps nor reduces them. Its result depends on nothing but the
/// two byte strings.
pub uninterp spec fn x448(scalar: Seq<u8>, point: Seq<u8>) -> Seq<u8>;

/// The encoding of the base point of Curve448, u = 5.
pub open spec fn base_point() -> Seq<u8> {
    Seq::new(56, |i: int| if i == 0 { 5u8 } else { 0u8 })
}

/// Calls `MontgomeryPoint::mul` of the `ed448` crate.
///
/// Trusted, not proved: that the product depends on the two byte strings
/// alone, which gives it the name [`x448`]. `Scalar::from_bytes` packs the 56
/// bytes into limbs without reducing them, and the point is its 56 bytes. The
/// call returns for every input: the ladder has a fixed number of steps and
/// the inversion at its end maps zero to zero.
#[verifier::external_body]
pub(crate) fn scalar_mul(scalar: &[u8; 56], point: &[u8; 56]) -> (product: [u8; 56])
    ensures
        product@ == x448(scalar@, point@),
{
    MontgomeryPoint(*point).mul(&Scalar::from_bytes(*scalar)).0
}

} // verus!
