//! Random numbers from the operating system.

use rand::rngs::OsRng;
use rand::RngCore;
use vstd::prelude::*;

verus! {

/// Calls `OsRng::try_fill_bytes` on eight bytes and reads them as a
/// little-endian number. Nothing is claimed of the number.
#[verifier::external_body]
pub(crate) fn random_u64() -> (res: Result<u64, rand::Error>) {
    let mut bytes = [0u8; 8];
    OsRng.try_fill_bytes(&mut bytes)?;
    Ok(u64::from_le_bytes(bytes))
}

} // verus!
