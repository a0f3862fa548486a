//! Overwriting secret bytes before their storage is released.

use vstd::prelude::*;
use zeroize::Zeroize;

verus! {

/// Thirty-two zero bytes: what a chain key holds while it is not in use.
pub open spec fn zero_key() -> Seq<u8> {
    Seq::new(32, |i: int| 0u8)
}

/// Calls `Zeroize::zeroize` on a byte vector: every byte it held and its
/// spare capacity are overwritten with zero, and the vector is left empty.
#[verifier::external_body]
pub(crate) fn wipe_vec(bytes: &mut Vec<u8>)
    ensures
        final(bytes)@.len() == 0,
    opens_invariants none
    no_unwind
{
    bytes.zeroize();
}

/// Calls `Zeroize::zeroize` on a 32-byte array: every byte becomes zero.
#[verifier::external_body]
pub(crate) fn wipe_key(key: &mut [u8; 32])
    ensures
        final(key)@ == zero_key(),
    opens_invariants none
    no_unwind
{
    key.zeroize();
}

} // verus!
