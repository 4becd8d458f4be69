//! Secrets: clamped scalars.

use crate::clamping::clamped;
use crate::clamping::is_clamped;
use crate::clamping::lemma_clamp_fixes_clamped_only;
use crate::clamping::lemma_clamped_is_clamped;
use crate::encoding::bytes_to_array;
use crate::encoding::KEY_LENGTH;
use crate::ladder::base_point;
use crate::ladder::scalar_mul;
use crate::ladder::x448;
use crate::public_key::PublicKey;
use vstd::prelude::*;

verus! {

/// A scalar for X448, as 56 little-endian bytes.
///
/// Every secret is clamped: the two lowest bits of its first byte are clear
/// and the highest bit of its last byte is set. Clamping happens once, when
/// the secret is made.
pub struct Secret([u8; 56]);

impl View for Secret {
    type V = Seq<u8>;

    /// The 56 bytes of the clamped scalar.
    closed spec fn view(&self) -> Seq<u8> {
        self.0@
    }
}

impl Secret {
    #[verifier::type_invariant]
    spec fn well_formed(self) -> bool {
        is_clamped(self.0@)
    }

    /// What a byte string decodes to: its clamped bytes as the scalar, or
    /// nothing when its length is not 56.
    pub open spec fn decoded(bytes: Seq<u8>) -> Option<Seq<u8>> {
        if bytes.len() == KEY_LENGTH {
            Some(clamped(bytes))
        } else {
            None
        }
    }

    /// Decoding and encoding again gives the clamped form of a 56-byte
    /// string, which is the string itself exactly when it was clamped
    /// already. No string of another length decodes.
    pub proof fn lemma_round_trip(bytes: Seq<u8>)
        ensures
            bytes.len() == KEY_LENGTH ==> Self::decoded(bytes) == Some(clamped(bytes)),
            bytes.len() == KEY_LENGTH ==> (Self::decoded(bytes) == Some(bytes) <==> is_clamped(
                bytes,
            )),
            bytes.len() != KEY_LENGTH ==> Self::decoded(bytes) is None,
    {
        if bytes.len() == KEY_LENGTH {
            lemma_clamp_fixes_clamped_only(bytes);
        }
    }

    /// Clamps a scalar in place.
    pub fn clamp(bytes: &mut [u8; 56])
        ensures
            final(bytes)@ == clamped(old(bytes)@),
            is_clamped(final(bytes)@),
    {
        proof {
            lemma_clamped_is_clamped(bytes@);
        }
        bytes[0] = bytes[0] & 252;
        bytes[55] = bytes[55] | 128;
    }

    /// Decodes a secret from a byte slice. Fails unless the slice has
    /// exactly 56 bytes, which are then clamped.
    pub fn from_bytes(bytes: &[u8]) -> (secret: Option<Secret>)
        ensures
            secret is Some <==> bytes@.len() == KEY_LENGTH,
            secret is Some ==> Self::decoded(bytes@) == Some(secret.unwrap()@),
            secret is None ==> Self::decoded(bytes@) is None,
    {
        if bytes.len() != 56 {
            return None;
        }
        Some(Secret::new(bytes_to_array(bytes)))
    }

    /// Makes a secret from 56 bytes of entropy by clamping them. The bytes
    /// must come from a cryptographically secure source; drawing them is the
    /// caller's part.
    pub fn new(entropy: [u8; 56]) -> (secret: Secret)
        ensures
            secret@ == clamped(entropy@),
    {
        let mut scalar = entropy;
        Secret::clamp(&mut scalar);
        Secret(scalar)
    }

    /// Encodes the secret: a copy of its 56 bytes, which are clamped.
    pub fn as_bytes(&self) -> (bytes: [u8; 56])
        ensures
            bytes@ == self@,
            is_clamped(bytes@),
    {
        proof {
            use_type_invariant(self);
        }
        self.0
    }

    /// The public key that belongs to this secret: the product of the
    /// secret and the base point.
    pub fn as_public_key(&self) -> (key: PublicKey)
        ensures
            key@ == x448(self@, base_point()),
            key@.len() == KEY_LENGTH,
    {
        let mut base = [0u8; 56];
        base[0] = 5;
        assert(base@ =~= base_point());
        self.as_diffie_hellman(&PublicKey::from_array(base))
    }

    /// The secret shared with the holder of `public_key`: the product of
    /// this secret and their public key. The secret can be used again.
    pub fn as_diffie_hellman(&self, public_key: &PublicKey) -> (shared: PublicKey)
        ensures
            shared@ == x448(self@, public_key@),
            shared@.len() == KEY_LENGTH,
    {
        let point = public_key.as_bytes();
        PublicKey::from_array(scalar_mul(&self.0, &point))
    }

    /// As [`Secret::as_diffie_hellman`], for a secret that is used once:
    /// the secret is gone after the call.
    pub fn to_diffie_hellman(self, public_key: &PublicKey) -> (shared: PublicKey)
        ensures
            shared@ == x448(self@, public_key@),
            shared@.len() == KEY_LENGTH,
    {
        self.as_diffie_hellman(public_key)
    }
}

} // verus!
