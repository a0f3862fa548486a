//! Dilithium2 signatures over byte strings.
//!
//! A signature here is the whole signed message the primitive produces: the
//! 2420 signature bytes followed by the message itself.

use crate::wipe::wipe_vec;
use pqcrypto_dilithium::dilithium2;
use pqcrypto_traits::sign::PublicKey as _;
use pqcrypto_traits::sign::SecretKey as _;
use pqcrypto_traits::sign::SignedMessage as _;
use vstd::prelude::*;
use vstd::slice::slice_to_vec;
use vstd::string::StringExecFns;

verus! {

/// Length of a Dilithium2 public key.
pub const DILITHIUM2_PUBLIC_KEY_BYTES: usize = 1312;

/// Length of a Dilithium2 secret key.
pub const DILITHIUM2_SECRET_KEY_BYTES: usize = 2560;

/// Length of a detached Dilithium2 signature.
pub const DILITHIUM2_SIGNATURE_BYTES: usize = 2420;

/// The signed message that `dilithium2::sign` produces for a message under a
/// secret key of the fixed length. This signing draws no randomness.
pub uninterp spec fn dilithium2_signed(message: Seq<u8>, secret_key: Seq<u8>) -> Seq<u8>;

/// Whether `dilithium2::open` accepts a signed message under a public key of
/// the fixed length. Verification draws no randomness.
pub uninterp spec fn dilithium2_accepts(signed: Seq<u8>, public_key: Seq<u8>) -> bool;

/// The bytes of `signed` that follow the signature proper.
pub open spec fn signed_payload(signed: Seq<u8>) -> Seq<u8> {
    signed.subrange(DILITHIUM2_SIGNATURE_BYTES as int, signed.len() as int)
}

/// What opening a signed message recovers: the bytes after the signature
/// proper where the signature is accepted, nothing otherwise.
pub open spec fn dilithium2_opened(signed: Seq<u8>, public_key: Seq<u8>) -> Option<Seq<u8>> {
    if signed.len() >= DILITHIUM2_SIGNATURE_BYTES && dilithium2_accepts(signed, public_key) {
        Some(signed_payload(signed))
    } else {
        None
    }
}

/// Whether `signature` is accepted for `message` under `public_key`.
pub open spec fn signature_verifies(
    message: Seq<u8>,
    signature: Seq<u8>,
    public_key: Seq<u8>,
) -> bool {
    dilithium2_opened(signature, public_key) == Some(message)
}

/// Calls `dilithium2::public_key_bytes`, which returns the constant 1312.
#[verifier::external_body]
fn dilithium2_public_key_bytes() -> (n: usize)
    ensures
        n == DILITHIUM2_PUBLIC_KEY_BYTES,
{
    dilithium2::public_key_bytes()
}

/// Calls `dilithium2::secret_key_bytes`, which returns the constant 2560.
#[verifier::external_body]
fn dilithium2_secret_key_bytes() -> (n: usize)
    ensures
        n == DILITHIUM2_SECRET_KEY_BYTES,
{
    dilithium2::secret_key_bytes()
}

/// Calls `dilithium2::signature_bytes`, which returns the constant 2420.
#[verifier::external_body]
fn dilithium2_signature_bytes() -> (n: usize)
    ensures
        n == DILITHIUM2_SIGNATURE_BYTES,
{
    dilithium2::signature_bytes()
}

/// Calls `dilithium2::keypair`. The pair is random; all that is claimed is
/// that both halves are the fixed-size arrays the primitive library declares.
#[verifier::external_body]
fn dilithium2_keypair() -> (pair: (Vec<u8>, Vec<u8>))
    ensures
        pair.0@.len() == DILITHIUM2_PUBLIC_KEY_BYTES,
        pair.1@.len() == DILITHIUM2_SECRET_KEY_BYTES,
{
    let (pk, sk) = dilithium2::keypair();
    (pk.as_bytes().to_vec(), sk.as_bytes().to_vec())
}

/// Calls `dilithium2::sign` with a secret key rebuilt from bytes, which fails
/// exactly on a wrong length. The signed message is the 2420 signature bytes
/// followed by the message, unchanged.
#[verifier::external_body]
fn dilithium2_sign(
    message: &[u8],
    secret_key: &[u8],
) -> (res: Result<Vec<u8>, pqcrypto_traits::Error>)
    ensures
        res is Ok <==> secret_key@.len() == DILITHIUM2_SECRET_KEY_BYTES,
        res matches Ok(signed) ==> signed@ == dilithium2_signed(message@, secret_key@),
        res matches Ok(signed) ==> signed@.len() == DILITHIUM2_SIGNATURE_BYTES + message@.len(),
        res matches Ok(signed) ==> signed_payload(signed@) == message@,
{
    let sk = dilithium2::SecretKey::from_bytes(secret_key)?;
    Ok(dilithium2::sign(message, &sk).as_bytes().to_vec())
}

/// Calls `dilithium2::open` with a public key rebuilt from bytes, which fails
/// exactly on a wrong length. A signed message shorter than 2420 bytes is
/// never accepted; where one is accepted, what is recovered is the part of it
/// that follows its first 2420 bytes.
#[verifier::external_body]
fn dilithium2_open(
    signed: &[u8],
    public_key: &[u8],
) -> (res: Result<Option<Vec<u8>>, pqcrypto_traits::Error>)
    ensures
        res is Ok <==> public_key@.len() == DILITHIUM2_PUBLIC_KEY_BYTES,
        res matches Ok(opened) ==> (opened is Some <==> (signed@.len()
            >= DILITHIUM2_SIGNATURE_BYTES && dilithium2_accepts(signed@, public_key@))),
        res matches Ok(Some(m)) ==> m@ == signed_payload(signed@),
{
    let pk = dilithium2::PublicKey::from_bytes(public_key)?;
    let sm = dilithium2::SignedMessage::from_bytes(signed)?;
    Ok(dilithium2::open(&sm, &pk).ok())
}

/// Why a signature operation was refused.
#[derive(Debug, Clone, Copy, PartialEq, Eq, Structural)]
pub enum DilithiumError {
    InvalidPublicKey,
    InvalidSecretKey,
    InvalidSignature,
    SigningError,
    VerificationError,
}

/// The text that describes each error.
pub open spec fn dilithium_error_text(error: DilithiumError) -> Seq<char> {
    match error {
        DilithiumError::InvalidPublicKey => "Invalid public key"@,
        DilithiumError::InvalidSecretKey => "Invalid secret key"@,
        DilithiumError::InvalidSignature => "Invalid signature"@,
        DilithiumError::SigningError => "Signing operation failed"@,
        DilithiumError::VerificationError => "Verification failed"@,
    }
}

impl DilithiumError {
    /// The message that describes this error.
    pub fn message(&self) -> (text: String)
        ensures
            text@ == dilithium_error_text(*self),
    {
        match self {
            DilithiumError::InvalidPublicKey => String::from_str("Invalid public key"),
            DilithiumError::InvalidSecretKey => String::from_str("Invalid secret key"),
            DilithiumError::InvalidSignature => String::from_str("Invalid signature"),
            DilithiumError::SigningError => String::from_str("Signing operation failed"),
            DilithiumError::VerificationError => String::from_str("Verification failed"),
        }
    }
}

/// A public verification key, as raw bytes.
#[derive(Debug, Clone)]
pub struct DilithiumPublicKey {
    inner: Vec<u8>,
}

impl View for DilithiumPublicKey {
    type V = Seq<u8>;

    closed spec fn view(&self) -> Seq<u8> {
        self.inner@
    }
}

impl DilithiumPublicKey {
    /// Accepts exactly the byte strings of the public-key length.
    pub fn from_bytes(bytes: &[u8]) -> (res: Result<Self, DilithiumError>)
        ensures
            bytes@.len() == DILITHIUM2_PUBLIC_KEY_BYTES ==> (res matches Ok(key) && key@ == bytes@),
            bytes@.len() != DILITHIUM2_PUBLIC_KEY_BYTES ==> res == Err::<Self, DilithiumError>(
                DilithiumError::InvalidPublicKey,
            ),
    {
        if bytes.len() != dilithium2_public_key_bytes() {
            return Err(DilithiumError::InvalidPublicKey);
        }
        Ok(Self { inner: slice_to_vec(bytes) })
    }

    pub fn as_bytes(&self) -> (bytes: &[u8])
        ensures
            bytes@ == self@,
    {
        self.inner.as_slice()
    }

    /// A copy that holds the same bytes.
    pub fn duplicate(&self) -> (copy: Self)
        ensures
            copy@ == self@,
    {
        Self { inner: slice_to_vec(self.inner.as_slice()) }
    }
}

/// A secret signing key, as raw bytes. Its bytes are overwritten with zero
/// when it is dropped.
#[derive(Debug, Clone)]
pub struct DilithiumSecretKey {
    inner: Vec<u8>,
}

impl View for DilithiumSecretKey {
    type V = Seq<u8>;

    closed spec fn view(&self) -> Seq<u8> {
        self.inner@
    }
}

impl DilithiumSecretKey {
    /// Accepts exactly the byte strings of the secret-key length.
    pub fn from_bytes(bytes: &[u8]) -> (res: Result<Self, DilithiumError>)
        ensures
            bytes@.len() == DILITHIUM2_SECRET_KEY_BYTES ==> (res matches Ok(key) && key@ == bytes@),
            bytes@.len() != DILITHIUM2_SECRET_KEY_BYTES ==> (res matches Err(e) && e
                == DilithiumError::InvalidSecretKey),
    {
        if bytes.len() != dilithium2_secret_key_bytes() {
            return Err(DilithiumError::InvalidSecretKey);
        }
        Ok(Self { inner: slice_to_vec(bytes) })
    }

    pub fn as_bytes(&self) -> (bytes: &[u8])
        ensures
            bytes@ == self@,
    {
        self.inner.as_slice()
    }
}

impl Drop for DilithiumSecretKey {
    fn drop(&mut self)
        ensures
            final(self)@.len() == 0,
        opens_invariants none
        no_unwind
    {
        wipe_vec(&mut self.inner);
    }
}

/// A signature, as raw bytes.
#[derive(Debug, Clone)]
pub struct DilithiumSignature {
    inner: Vec<u8>,
}

impl View for DilithiumSignature {
    type V = Seq<u8>;

    closed spec fn view(&self) -> Seq<u8> {
        self.inner@
    }
}

impl DilithiumSignature {
    /// Accepts exactly the byte strings of the detached-signature length.
    pub fn from_bytes(bytes: &[u8]) -> (res: Result<Self, DilithiumError>)
        ensures
            bytes@.len() == DILITHIUM2_SIGNATURE_BYTES ==> (res matches Ok(sig) && sig@ == bytes@),
            bytes@.len() != DILITHIUM2_SIGNATURE_BYTES ==> (res matches Err(e) && e
                == DilithiumError::InvalidSignature),
    {
        if bytes.len() != dilithium2_signature_bytes() {
            return Err(DilithiumError::InvalidSignature);
        }
        Ok(Self { inner: slice_to_vec(bytes) })
    }

    pub fn as_bytes(&self) -> (bytes: &[u8])
        ensures
            bytes@ == self@,
    {
        self.inner.as_slice()
    }
}

/// Whether two byte strings hold the same bytes.
pub fn bytes_equal(a: &[u8], b: &[u8]) -> (same: bool)
    ensures
        same == (a@ == b@),
{
    if a.len() != b.len() {
        return false;
    }
    let mut i: usize = 0;
    while i < a.len()
        invariant
            a@.len() == b@.len(),
            i <= a@.len(),
            forall|j: int| 0 <= j < i ==> a@[j] == b@[j],
        decreases a@.len() - i,
    {
        if a[i] != b[i] {
            return false;
        }
        i += 1;
    }
    assert(a@ =~= b@);
    true
}

/// Whether what opening a signed message recovered is exactly `message`.
pub fn opened_matches(opened: &Option<Vec<u8>>, message: &[u8]) -> (ok: bool)
    ensures
        ok == (opened matches Some(m) && m@ == message@),
{
    match opened {
        Some(recovered) => bytes_equal(recovered.as_slice(), message),
        None => false,
    }
}

/// The Dilithium2 signature scheme.
#[derive(Debug, Clone, Copy)]
pub struct Dilithium;

impl Dilithium {
    pub fn new() -> (scheme: Self) {
        Self
    }

    /// Generates a fresh signing identity. Always succeeds, with keys of the
    /// fixed lengths.
    pub fn keygen(&self) -> (res: Result<(DilithiumPublicKey, DilithiumSecretKey), DilithiumError>)
        ensures
            res matches Ok((pk, sk)) && pk@.len() == DILITHIUM2_PUBLIC_KEY_BYTES && sk@.len()
                == DILITHIUM2_SECRET_KEY_BYTES,
    {
        let (pk_bytes, sk_bytes) = dilithium2_keypair();
        Ok((DilithiumPublicKey { inner: pk_bytes }, DilithiumSecretKey { inner: sk_bytes }))
    }

    /// Signs `message`. A secret key of the wrong length is refused as
    /// `InvalidSecretKey`; otherwise the result is the signed message that
    /// Dilithium2 determines, which ends in `message` itself.
    pub fn sign(
        &self,
        message: &[u8],
        sk: &DilithiumSecretKey,
    ) -> (res: Result<DilithiumSignature, DilithiumError>)
        ensures
            sk@.len() != DILITHIUM2_SECRET_KEY_BYTES ==> (res matches Err(e) && e
                == DilithiumError::InvalidSecretKey),
            sk@.len() == DILITHIUM2_SECRET_KEY_BYTES ==> (res matches Ok(sig) && sig@
                == dilithium2_signed(message@, sk@) && sig@.len() == DILITHIUM2_SIGNATURE_BYTES
                + message@.len() && signed_payload(sig@) == message@),
    {
        match dilithium2_sign(message, sk.as_bytes()) {
            Ok(signed) => Ok(DilithiumSignature { inner: signed }),
            Err(_) => Err(DilithiumError::InvalidSecretKey),
        }
    }

    /// Verifies `signature` over `message`. A public key of the wrong length
    /// is refused as `InvalidPublicKey`; otherwise the answer is whether
    /// opening the signature under `pk` recovers exactly `message`.
    pub fn verify(
        &self,
        message: &[u8],
        signature: &DilithiumSignature,
        pk: &DilithiumPublicKey,
    ) -> (res: Result<bool, DilithiumError>)
        ensures
            res is Ok <==> pk@.len() == DILITHIUM2_PUBLIC_KEY_BYTES,
            pk@.len() != DILITHIUM2_PUBLIC_KEY_BYTES ==> res == Err::<bool, DilithiumError>(
                DilithiumError::InvalidPublicKey,
            ),
            pk@.len() == DILITHIUM2_PUBLIC_KEY_BYTES ==> res == Ok::<bool, DilithiumError>(
                signature_verifies(message@, signature@, pk@),
            ),
    {
        match dilithium2_open(signature.as_bytes(), pk.as_bytes()) {
            Ok(opened) => Ok(opened_matches(&opened, message)),
            Err(_) => Err(DilithiumError::InvalidPublicKey),
        }
    }

    pub fn public_key_bytes() -> (n: usize)
        ensures
            n == DILITHIUM2_PUBLIC_KEY_BYTES,
    {
        dilithium2_public_key_bytes()
    }

    pub fn secret_key_bytes() -> (n: usize)
        ensures
            n == DILITHIUM2_SECRET_KEY_BYTES,
    {
        dilithium2_secret_key_bytes()
    }

    pub fn signature_bytes() -> (n: usize)
        ensures
            n == DILITHIUM2_SIGNATURE_BYTES,
    {
        dilithium2_signature_bytes()
    }
}

/// A signature accepted for one message is accepted for no other: opening a
/// signed message can only recover the bytes that follow its signature part.
pub proof fn lemma_signature_binds_message(
    message: Seq<u8>,
    other: Seq<u8>,
    signature: Seq<u8>,
    public_key: Seq<u8>,
    other_key: Seq<u8>,
)
    requires
        signature_verifies(message, signature, public_key),
        other != message,
    ensures
        !signature_verifies(other, signature, other_key),
{
}

} // verus!
