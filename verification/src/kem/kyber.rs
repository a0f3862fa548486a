//! The Kyber-512 key-encapsulation mechanism.

use super::kem::{Ciphertext, Kem, KemError, PublicKey, SecretKey, SharedSecret};
use pqcrypto_kyber::kyber512;
use pqcrypto_traits::kem::Ciphertext as _;
use pqcrypto_traits::kem::PublicKey as _;
use pqcrypto_traits::kem::SecretKey as _;
use pqcrypto_traits::kem::SharedSecret as _;
use vstd::prelude::*;

verus! {

/// Length of a Kyber-512 public key.
pub const KYBER512_PUBLIC_KEY_BYTES: usize = 800;

/// Length of a Kyber-512 secret key.
pub const KYBER512_SECRET_KEY_BYTES: usize = 1632;

/// Length of a Kyber-512 ciphertext.
pub const KYBER512_CIPHERTEXT_BYTES: usize = 768;

/// Length of a Kyber-512 shared secret.
pub const KYBER512_SHARED_SECRET_BYTES: usize = 32;

/// The length error that the byte-level constructors of the primitive
/// library report.
#[verifier::external_type_specification]
#[verifier::external_body]
pub struct ExLengthError(pqcrypto_traits::Error);

/// What `kyber512::decapsulate` recovers from a ciphertext and a secret key,
/// both of the fixed lengths. Decapsulation draws no randomness.
pub uninterp spec fn kyber512_decapsulated(ciphertext: Seq<u8>, secret_key: Seq<u8>) -> Seq<u8>;

/// Calls `kyber512::public_key_bytes`, which returns the constant 800.
#[verifier::external_body]
fn kyber512_public_key_bytes() -> (n: usize)
    ensures
        n == KYBER512_PUBLIC_KEY_BYTES,
{
    kyber512::public_key_bytes()
}

/// Calls `kyber512::secret_key_bytes`, which returns the constant 1632.
#[verifier::external_body]
fn kyber512_secret_key_bytes() -> (n: usize)
    ensures
        n == KYBER512_SECRET_KEY_BYTES,
{
    kyber512::secret_key_bytes()
}

/// Calls `kyber512::ciphertext_bytes`, which returns the constant 768.
#[verifier::external_body]
fn kyber512_ciphertext_bytes() -> (n: usize)
    ensures
        n == KYBER512_CIPHERTEXT_BYTES,
{
    kyber512::ciphertext_bytes()
}

/// Calls `kyber512::shared_secret_bytes`, which returns the constant 32.
#[verifier::external_body]
fn kyber512_shared_secret_bytes() -> (n: usize)
    ensures
        n == KYBER512_SHARED_SECRET_BYTES,
{
    kyber512::shared_secret_bytes()
}

/// Calls `kyber512::keypair`. The pair is random; all that is claimed is that
/// both halves are the fixed-size arrays the primitive library declares.
#[verifier::external_body]
fn kyber512_keypair() -> (pair: (Vec<u8>, Vec<u8>))
    ensures
        pair.0@.len() == KYBER512_PUBLIC_KEY_BYTES,
        pair.1@.len() == KYBER512_SECRET_KEY_BYTES,
{
    let (pk, sk) = kyber512::keypair();
    (pk.as_bytes().to_vec(), sk.as_bytes().to_vec())
}

/// Calls `kyber512::encapsulate` on a key rebuilt from `public_key`, and
/// returns ciphertext then secret. Rebuilding the key fails exactly on a
/// wrong length; the outcome is random, so only its lengths are claimed.
#[verifier::external_body]
fn kyber512_encapsulate(
    public_key: &[u8],
) -> (res: Result<(Vec<u8>, Vec<u8>), pqcrypto_traits::Error>)
    ensures
        res is Ok <==> public_key@.len() == KYBER512_PUBLIC_KEY_BYTES,
        res matches Ok((ct, ss)) ==> ct@.len() == KYBER512_CIPHERTEXT_BYTES && ss@.len()
            == KYBER512_SHARED_SECRET_BYTES,
{
    let pk = kyber512::PublicKey::from_bytes(public_key)?;
    let (ss, ct) = kyber512::encapsulate(&pk);
    Ok((ct.as_bytes().to_vec(), ss.as_bytes().to_vec()))
}

/// Calls `kyber512::decapsulate` on a ciphertext and a secret key rebuilt from
/// bytes. Rebuilding fails exactly on a wrong length; otherwise the result is
/// the 32-byte secret that decapsulation determines.
#[verifier::external_body]
fn kyber512_decapsulate(
    ciphertext: &[u8],
    secret_key: &[u8],
) -> (res: Result<Vec<u8>, pqcrypto_traits::Error>)
    ensures
        res is Ok <==> (ciphertext@.len() == KYBER512_CIPHERTEXT_BYTES && secret_key@.len()
            == KYBER512_SECRET_KEY_BYTES),
        res matches Ok(ss) ==> ss@ == kyber512_decapsulated(ciphertext@, secret_key@),
        res matches Ok(ss) ==> ss@.len() == KYBER512_SHARED_SECRET_BYTES,
{
    let ct = kyber512::Ciphertext::from_bytes(ciphertext)?;
    let sk = kyber512::SecretKey::from_bytes(secret_key)?;
    Ok(kyber512::decapsulate(&ct, &sk).as_bytes().to_vec())
}

/// Kyber-512 behind the key-encapsulation contract.
#[derive(Debug, Clone)]
pub struct Kyber512 {}

impl Kyber512 {
    pub fn new() -> (kem: Self) {
        Self {}
    }
}

impl Kem for Kyber512 {
    open spec fn public_key_len(&self) -> nat {
        KYBER512_PUBLIC_KEY_BYTES as nat
    }

    open spec fn secret_key_len(&self) -> nat {
        KYBER512_SECRET_KEY_BYTES as nat
    }

    open spec fn ciphertext_len(&self) -> nat {
        KYBER512_CIPHERTEXT_BYTES as nat
    }

    open spec fn shared_secret_len(&self) -> nat {
        KYBER512_SHARED_SECRET_BYTES as nat
    }

    /// Always succeeds.
    fn keygen(&self) -> (res: Result<(PublicKey, SecretKey), KemError>)
        ensures
            res is Ok,
    {
        let (pk_bytes, sk_bytes) = kyber512_keypair();
        Ok((PublicKey::from_vec(pk_bytes), SecretKey::from_vec(sk_bytes)))
    }

    /// Succeeds exactly on a public key of 800 bytes; any other is refused as
    /// `InvalidKeySize`.
    fn encaps(&self, pk: &PublicKey) -> (res: Result<(Ciphertext, SharedSecret), KemError>)
        ensures
            pk@.len() == KYBER512_PUBLIC_KEY_BYTES ==> res is Ok,
            pk@.len() != KYBER512_PUBLIC_KEY_BYTES ==> res matches Err(KemError::InvalidKeySize),
    {
        if pk.as_ref().len() != kyber512_public_key_bytes() {
            return Err(KemError::InvalidKeySize);
        }
        match kyber512_encapsulate(pk.as_ref()) {
            Ok((ct_bytes, ss_bytes)) => Ok(
                (Ciphertext::from_vec(ct_bytes), SharedSecret::from_vec(ss_bytes)),
            ),
            Err(_) => Err(KemError::InvalidKeySize),
        }
    }

    /// A ciphertext of the wrong length is refused as `InvalidCiphertextSize`,
    /// then a secret key of the wrong length as `InvalidKeySize`; otherwise
    /// the result is what Kyber-512 decapsulation determines.
    fn decaps(&self, ct: &Ciphertext, sk: &SecretKey) -> (res: Result<SharedSecret, KemError>)
        ensures
            ct@.len() != KYBER512_CIPHERTEXT_BYTES ==> res matches Err(
                KemError::InvalidCiphertextSize,
            ),
            ct@.len() == KYBER512_CIPHERTEXT_BYTES && sk@.len() != KYBER512_SECRET_KEY_BYTES
                ==> res matches Err(KemError::InvalidKeySize),
            ct@.len() == KYBER512_CIPHERTEXT_BYTES && sk@.len() == KYBER512_SECRET_KEY_BYTES
                ==> (res matches Ok(ss) && ss@ == kyber512_decapsulated(ct@, sk@)),
    {
        if ct.as_ref().len() != kyber512_ciphertext_bytes() {
            return Err(KemError::InvalidCiphertextSize);
        }
        if sk.as_ref().len() != kyber512_secret_key_bytes() {
            return Err(KemError::InvalidKeySize);
        }
        match kyber512_decapsulate(ct.as_ref(), sk.as_ref()) {
            Ok(ss_bytes) => Ok(SharedSecret::from_vec(ss_bytes)),
            Err(_) => Err(KemError::InvalidCiphertextSize),
        }
    }

    fn public_key_bytes(&self) -> (n: usize) {
        kyber512_public_key_bytes()
    }

    fn secret_key_bytes(&self) -> (n: usize) {
        kyber512_secret_key_bytes()
    }

    fn ciphertext_bytes(&self) -> (n: usize) {
        kyber512_ciphertext_bytes()
    }

    fn shared_secret_bytes(&self) -> (n: usize) {
        kyber512_shared_secret_bytes()
    }
}

} // verus!
