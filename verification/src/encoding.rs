//! The fixed-width byte encoding shared by both kinds of key.

use vstd::prelude::*;

verus! {

/// Length in bytes of an encoded scalar and of an encoded u-coordinate.
pub const KEY_LENGTH: usize = 56;

/// Copies a slice of exactly 56 bytes into an array.
pub fn bytes_to_array(bytes: &[u8]) -> (array: [u8; 56])
    requires
        bytes@.len() == KEY_LENGTH,
    ensures
        array@ == bytes@,
{
    let mut array: [u8; 56] = [0u8; 56];
    let mut i: usize = 0;
    while i < 56
        invariant
            i <= 56,
            bytes@.len() == 56,
            forall|j: int| 0 <= j < i ==> array@[j] == bytes@[j],
        decreases 56 - i,
    {
        array[i] = bytes[i];
        i = i + 1;
    }
    assert(array@ =~= bytes@);
    array
}

} // verus!
