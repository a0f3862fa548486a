//! Byte containers for key-encapsulation material and the capability contract
//! every key-encapsulation mechanism fulfils.

use crate::wipe::wipe_vec;
use vstd::prelude::*;
use vstd::string::StringExecFns;

verus! {

/// A public encapsulation key, as raw bytes.
#[derive(Debug, Clone, PartialEq, Eq)]
pub struct PublicKey(Vec<u8>);

impl View for PublicKey {
    type V = Seq<u8>;

    closed spec fn view(&self) -> Seq<u8> {
        self.0@
    }
}

impl PublicKey {
    pub fn from_vec(v: Vec<u8>) -> (key: Self)
        ensures
            key@ == v@,
    {
        Self(v)
    }

    pub fn from_box(b: Box<[u8]>) -> (key: Self)
        ensures
            key@ == b@,
    {
        Self(b.into_vec())
    }
}

impl AsRef<[u8]> for PublicKey {
    fn as_ref(&self) -> (bytes: &[u8])
        ensures
            bytes@ == self@,
    {
        self.0.as_slice()
    }
}

/// A secret decapsulation key, as raw bytes. Its bytes are overwritten with
/// zero when it is dropped.
#[derive(Debug, Clone, PartialEq, Eq)]
pub struct SecretKey(Vec<u8>);

impl View for SecretKey {
    type V = Seq<u8>;

    closed spec fn view(&self) -> Seq<u8> {
        self.0@
    }
}

impl Drop for SecretKey {
    fn drop(&mut self)
        ensures
            final(self)@.len() == 0,
        opens_invariants none
        no_unwind
    {
        wipe_vec(&mut self.0);
    }
}

impl SecretKey {
    /// Overwrites the bytes with zero and leaves the value empty.
    pub fn wipe(&mut self)
        ensures
            final(self)@.len() == 0,
    {
        wipe_vec(&mut self.0);
    }

    pub fn from_vec(v: Vec<u8>) -> (key: Self)
        ensures
            key@ == v@,
    {
        Self(v)
    }

    pub fn from_box(b: Box<[u8]>) -> (key: Self)
        ensures
            key@ == b@,
    {
        Self(b.into_vec())
    }
}

impl AsRef<[u8]> for SecretKey {
    fn as_ref(&self) -> (bytes: &[u8])
        ensures
            bytes@ == self@,
    {
        self.0.as_slice()
    }
}

/// An encapsulation ciphertext, as raw bytes.
#[derive(Debug, Clone, PartialEq, Eq)]
pub struct Ciphertext(Vec<u8>);

impl View for Ciphertext {
    type V = Seq<u8>;

    closed spec fn view(&self) -> Seq<u8> {
        self.0@
    }
}

impl Ciphertext {
    pub fn from_vec(v: Vec<u8>) -> (ct: Self)
        ensures
            ct@ == v@,
    {
        Self(v)
    }

    pub fn from_box(b: Box<[u8]>) -> (ct: Self)
        ensures
            ct@ == b@,
    {
        Self(b.into_vec())
    }
}

impl AsRef<[u8]> for Ciphertext {
    fn as_ref(&self) -> (bytes: &[u8])
        ensures
            bytes@ == self@,
    {
        self.0.as_slice()
    }
}

/// The secret both sides of an encapsulation end up with, as raw bytes. Its
/// bytes are overwritten with zero when it is dropped.
#[derive(Debug, Clone, PartialEq, Eq)]
pub struct SharedSecret(Vec<u8>);

impl View for SharedSecret {
    type V = Seq<u8>;

    closed spec fn view(&self) -> Seq<u8> {
        self.0@
    }
}

impl Drop for SharedSecret {
    fn drop(&mut self)
        ensures
            final(self)@.len() == 0,
        opens_invariants none
        no_unwind
    {
        wipe_vec(&mut self.0);
    }
}

impl SharedSecret {
    /// Overwrites the bytes with zero and leaves the value empty.
    pub fn wipe(&mut self)
        ensures
            final(self)@.len() == 0,
    {
        wipe_vec(&mut self.0);
    }

    pub fn from_vec(v: Vec<u8>) -> (secret: Self)
        ensures
            secret@ == v@,
    {
        Self(v)
    }

    pub fn from_box(b: Box<[u8]>) -> (secret: Self)
        ensures
            secret@ == b@,
    {
        Self(b.into_vec())
    }
}

impl AsRef<[u8]> for SharedSecret {
    fn as_ref(&self) -> (bytes: &[u8])
        ensures
            bytes@ == self@,
    {
        self.0.as_slice()
    }
}

/// The random-number failure that a key-encapsulation mechanism may report.
#[verifier::external_type_specification]
#[verifier::external_body]
pub struct ExRngError(rand::Error);

/// Why a key-encapsulation operation was refused.
#[derive(Debug)]
pub enum KemError {
    /// A key does not have the length the mechanism fixes.
    InvalidKeySize,
    /// A ciphertext does not have the length the mechanism fixes.
    InvalidCiphertextSize,
    /// Encapsulation failed.
    EncapsulationError,
    /// Decapsulation failed.
    DecapsulationError,
    /// The random number generator failed.
    RandomError(rand::Error),
}

/// Calls the `Display` implementation of `rand::Error` through `to_string`.
/// Nothing is claimed of the text.
#[verifier::external_body]
fn rng_error_text(error: &rand::Error) -> (text: String) {
    error.to_string()
}

/// The text that describes each error; for a random-number failure, the text
/// that the failure's own description follows.
pub open spec fn kem_error_text(error: KemError) -> Seq<char> {
    match error {
        KemError::InvalidKeySize => "Invalid key size provided"@,
        KemError::InvalidCiphertextSize => "Invalid ciphertext size"@,
        KemError::EncapsulationError => "Encapsulation operation failed"@,
        KemError::DecapsulationError => "Decapsulation operation failed"@,
        KemError::RandomError(_) => "Cryptographic RNG failure: "@,
    }
}

impl KemError {
    /// The message that describes this error. For a random-number failure it
    /// ends in that failure's own description.
    pub fn message(&self) -> (text: String)
        ensures
            !(*self is RandomError) ==> text@ == kem_error_text(*self),
            *self is RandomError ==> kem_error_text(*self).is_prefix_of(text@),
    {
        match self {
            KemError::InvalidKeySize => String::from_str("Invalid key size provided"),
            KemError::InvalidCiphertextSize => String::from_str("Invalid ciphertext size"),
            KemError::EncapsulationError => String::from_str("Encapsulation operation failed"),
            KemError::DecapsulationError => String::from_str("Decapsulation operation failed"),
            KemError::RandomError(inner) => {
                let detail = rng_error_text(inner);
                let text = String::from_str("Cryptographic RNG failure: ").concat(detail.as_str());
                assert(text@.subrange(0, "Cryptographic RNG failure: "@.len() as int)
                    =~= "Cryptographic RNG failure: "@);
                text
            },
        }
    }
}

/// A key-encapsulation mechanism with fixed byte lengths.
///
/// Every implementation hands out material of exactly the lengths it
/// announces and refuses input of any other length.
pub trait Kem: Send + Sync {
    /// Length of a public key.
    spec fn public_key_len(&self) -> nat;

    /// Length of a secret key.
    spec fn secret_key_len(&self) -> nat;

    /// Length of a ciphertext.
    spec fn ciphertext_len(&self) -> nat;

    /// Length of a shared secret.
    spec fn shared_secret_len(&self) -> nat;

    /// Generates a fresh key pair.
    fn keygen(&self) -> (res: Result<(PublicKey, SecretKey), KemError>)
        ensures
            res matches Ok((pk, sk)) ==> pk@.len() == self.public_key_len() && sk@.len()
                == self.secret_key_len(),
    ;

    /// Encapsulates a fresh secret to `pk`.
    fn encaps(&self, pk: &PublicKey) -> (res: Result<(Ciphertext, SharedSecret), KemError>)
        ensures
            pk@.len() != self.public_key_len() ==> res is Err,
            res matches Ok((ct, ss)) ==> ct@.len() == self.ciphertext_len() && ss@.len()
                == self.shared_secret_len(),
    ;

    /// Recovers the secret that `ct` carries for the holder of `sk`.
    fn decaps(&self, ct: &Ciphertext, sk: &SecretKey) -> (res: Result<SharedSecret, KemError>)
        ensures
            ct@.len() != self.ciphertext_len() || sk@.len() != self.secret_key_len() ==> res is Err,
            res matches Ok(ss) ==> ss@.len() == self.shared_secret_len(),
    ;

    fn public_key_bytes(&self) -> (n: usize)
        ensures
            n == self.public_key_len(),
    ;

    fn secret_key_bytes(&self) -> (n: usize)
        ensures
            n == self.secret_key_len(),
    ;

    fn ciphertext_bytes(&self) -> (n: usize)
        ensures
            n == self.ciphertext_len(),
    ;

    fn shared_secret_bytes(&self) -> (n: usize)
        ensures
            n == self.shared_secret_len(),
    ;
}

} // verus!
