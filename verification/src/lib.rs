//! X448: Diffie-Hellman key agreement over Curve448, on 56-byte keys.
//!
//! A [`Secret`] is a clamped scalar, a [`PublicKey`] the u-coordinate of a
//! point, both in the little-endian encoding of RFC 7748. The product of a
//! secret and a public key is again a public key: the shared secret.
//!
//! No check for low-order points is made. An all-zero shared secret marks
//! such an input, and the caller has to reject it.

pub mod clamping;
pub mod encoding;
pub mod ladder;
pub mod public_key;
pub mod secret;

pub use crate::public_key::PublicKey;
pub use crate::secret::Secret;
