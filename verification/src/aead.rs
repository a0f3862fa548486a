//! AES-256-GCM under a 32-byte key and a 12-byte nonce, with no associated
//! data.

use aes_gcm::aead::{Aead, KeyInit};
use aes_gcm::{Aes256Gcm, Key, Nonce};
use vstd::prelude::*;

verus! {

/// Length of a nonce.
pub const AEAD_NONCE_BYTES: usize = 12;

/// Length of the integrity tag that ends every sealed message.
pub const AEAD_TAG_BYTES: usize = 16;

/// The longest plaintext that can be sealed: 2^36 bytes.
pub const AEAD_MAX_PLAINTEXT_BYTES: u64 = 0x10_0000_0000;

/// The opaque failure that sealing and opening report.
#[verifier::external_type_specification]
#[verifier::external_body]
pub struct ExAeadError(aes_gcm::Error);

/// The ciphertext and tag that AES-256-GCM encryption produces for a
/// plaintext of at most 2^36 bytes.
pub uninterp spec fn aes256gcm_sealed(key: Seq<u8>, nonce: Seq<u8>, plaintext: Seq<u8>) -> Seq<u8>;

/// What AES-256-GCM decryption recovers from a ciphertext and tag: the
/// plaintext, or nothing where the tag does not authenticate it.
pub uninterp spec fn aes256gcm_opened(key: Seq<u8>, nonce: Seq<u8>, sealed: Seq<u8>) -> Option<
    Seq<u8>,
>;

/// Calls `Aes256Gcm::encrypt` on a nonce of 12 bytes. It fails exactly on a
/// plaintext longer than 2^36 bytes; otherwise the result is the encrypted
/// plaintext followed by a 16-byte tag, and decrypting it under the same key
/// and nonce gives the plaintext back.
#[verifier::external_body]
pub(crate) fn aes256gcm_seal(
    key: &[u8; 32],
    nonce: &[u8],
    plaintext: &[u8],
) -> (res: Result<Vec<u8>, aes_gcm::Error>)
    requires
        nonce@.len() == AEAD_NONCE_BYTES,
    ensures
        res is Ok <==> plaintext@.len() <= AEAD_MAX_PLAINTEXT_BYTES,
        res matches Ok(sealed) ==> sealed@ == aes256gcm_sealed(key@, nonce@, plaintext@),
        res matches Ok(sealed) ==> sealed@.len() == plaintext@.len() + AEAD_TAG_BYTES,
        res matches Ok(sealed) ==> aes256gcm_opened(key@, nonce@, sealed@) == Some(plaintext@),
{
    Aes256Gcm::new(Key::<Aes256Gcm>::from_slice(key)).encrypt(Nonce::from_slice(nonce), plaintext)
}

/// Calls `Aes256Gcm::decrypt` on a nonce of 12 bytes. It returns the
/// plaintext where the tag authenticates the ciphertext, and fails otherwise.
#[verifier::external_body]
pub(crate) fn aes256gcm_open(
    key: &[u8; 32],
    nonce: &[u8],
    sealed: &[u8],
) -> (res: Result<Vec<u8>, aes_gcm::Error>)
    requires
        nonce@.len() == AEAD_NONCE_BYTES,
    ensures
        res matches Ok(plaintext) ==> aes256gcm_opened(key@, nonce@, sealed@) == Some(plaintext@),
        res is Err ==> aes256gcm_opened(key@, nonce@, sealed@) is None,
{
    Aes256Gcm::new(Key::<Aes256Gcm>::from_slice(key)).decrypt(Nonce::from_slice(nonce), sealed)
}

} // verus!
