//! Public keys: encoded u-coordinates.

use crate::encoding::bytes_to_array;
use crate::encoding::KEY_LENGTH;
use vstd::prelude::*;

verus! {

/// The u-coordinate of a point on Curve448, as 56 little-endian bytes.
///
/// Any 56 bytes are a public key: no check of curve membership is made.
pub struct PublicKey([u8; 56]);

impl View for PublicKey {
    type V = Seq<u8>;

    /// The 56 bytes of the u-coordinate.
    closed spec fn view(&self) -> Seq<u8> {
        self.0@
    }
}

impl PublicKey {
    /// What a byte string decodes to: its own bytes as the u-coordinate, or
    /// nothing when its length is not 56.
    pub open spec fn decoded(bytes: Seq<u8>) -> Option<Seq<u8>> {
        if bytes.len() == KEY_LENGTH {
            Some(bytes)
        } else {
            None
        }
    }

    /// Decoding and encoding again gives back every 56-byte string, and no
    /// string of another length decodes.
    pub proof fn lemma_round_trip(bytes: Seq<u8>)
        ensures
            bytes.len() == KEY_LENGTH ==> Self::decoded(bytes) == Some(bytes),
            bytes.len() != KEY_LENGTH ==> Self::decoded(bytes) is None,
    {
    }

    /// Wraps a u-coordinate.
    pub(crate) fn from_array(bytes: [u8; 56]) -> (key: PublicKey)
        ensures
            key@ == bytes@,
    {
        PublicKey(bytes)
    }

    /// Decodes a public key from a byte slice. Fails unless the slice has
    /// exactly 56 bytes, which are then taken as they are.
    pub fn from_bytes(bytes: &[u8]) -> (key: Option<PublicKey>)
        ensures
            key is Some <==> bytes@.len() == KEY_LENGTH,
            key is Some ==> Self::decoded(bytes@) == Some(key.unwrap()@),
            key is None ==> Self::decoded(bytes@) is None,
    {
        if bytes.len() != 56 {
            return None;
        }
        Some(PublicKey::from_array(bytes_to_array(bytes)))
    }

    /// Encodes the public key: a copy of its 56 bytes.
    pub fn as_bytes(&self) -> (bytes: [u8; 56])
        ensures
            bytes@ == self@,
    {
        self.0
    }
}

} // verus!
