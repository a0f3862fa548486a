//! Key derivation: HKDF-SHA256 without salt, expanded to 32 bytes.

use hkdf::Hkdf;
use sha2::Sha256;
use vstd::prelude::*;

verus! {

/// The failure that HKDF reports for an output that is too long.
#[verifier::external_type_specification]
#[verifier::external_body]
pub struct ExInvalidLength(hkdf::InvalidLength);

/// The 32 bytes that HKDF-SHA256 yields for a secret, no salt, and a label.
pub uninterp spec fn hkdf_sha256_expanded(secret: Seq<u8>, label: Seq<u8>) -> Seq<u8>;

/// Calls `Hkdf::<Sha256>::new` without salt and then `expand` into 32 bytes.
/// Expansion fails only for outputs beyond 255 hash blocks, so never here.
#[verifier::external_body]
pub(crate) fn hkdf_sha256_expand(
    secret: &[u8],
    label: &[u8],
) -> (res: Result<[u8; 32], hkdf::InvalidLength>)
    ensures
        res is Ok,
        res matches Ok(key) ==> key@ == hkdf_sha256_expanded(secret@, label@),
{
    let mut key = [0u8; 32];
    Hkdf::<Sha256>::new(None, secret).expand(label, &mut key)?;
    Ok(key)
}

} // verus!
