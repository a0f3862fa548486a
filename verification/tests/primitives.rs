use pq_core::kem::kem::{Ciphertext, KemError, PublicKey, SecretKey, SharedSecret};
use pq_core::kem::{Kem, Kyber512};
use pq_core::sig::dilithium::{
    bytes_equal, opened_matches, Dilithium, DilithiumError, DilithiumPublicKey, DilithiumSecretKey,
    DilithiumSignature,
};

#[test]
fn byte_containers_keep_their_bytes() {
    let bytes = vec![1u8, 2, 3];
    assert_eq!(PublicKey::from_vec(bytes.clone()).as_ref(), &bytes[..]);
    assert_eq!(PublicKey::from_box(bytes.clone().into_boxed_slice()).as_ref(), &bytes[..]);
    assert_eq!(SecretKey::from_vec(bytes.clone()).as_ref(), &bytes[..]);
    assert_eq!(SecretKey::from_box(bytes.clone().into_boxed_slice()).as_ref(), &bytes[..]);
    assert_eq!(Ciphertext::from_vec(bytes.clone()).as_ref(), &bytes[..]);
    assert_eq!(Ciphertext::from_box(bytes.clone().into_boxed_slice()).as_ref(), &bytes[..]);
    assert_eq!(SharedSecret::from_vec(bytes.clone()).as_ref(), &bytes[..]);
    assert_eq!(SharedSecret::from_box(bytes.clone().into_boxed_slice()).as_ref(), &bytes[..]);
    assert_eq!(PublicKey::from_vec(bytes.clone()), PublicKey::from_vec(bytes.clone()));
    assert_ne!(PublicKey::from_vec(bytes), PublicKey::from_vec(vec![1u8, 2]));
}

#[test]
fn kyber_lengths() {
    let kem = Kyber512::new();
    assert_eq!(kem.public_key_bytes(), 800);
    assert_eq!(kem.secret_key_bytes(), 1632);
    assert_eq!(kem.ciphertext_bytes(), 768);
    assert_eq!(kem.shared_secret_bytes(), 32);
    let (pk, sk) = kem.keygen().unwrap();
    assert_eq!(pk.as_ref().len(), 800);
    assert_eq!(sk.as_ref().len(), 1632);
}

#[test]
fn kyber_encapsulation_agrees_with_decapsulation() {
    let kem = Kyber512::new();
    let (pk, sk) = kem.keygen().unwrap();
    let (ct, ss) = kem.encaps(&pk).unwrap();
    assert_eq!(ct.as_ref().len(), 768);
    assert_eq!(ss.as_ref().len(), 32);
    let recovered = kem.decaps(&ct, &sk).unwrap();
    assert_eq!(recovered, ss);
    assert_eq!(kem.decaps(&ct, &sk).unwrap(), recovered);
    assert_ne!(recovered.as_ref(), &ct.as_ref()[..32]);
}

#[test]
fn kyber_refuses_wrong_lengths() {
    let kem = Kyber512::new();
    let (pk, sk) = kem.keygen().unwrap();
    let (ct, _) = kem.encaps(&pk).unwrap();
    assert!(matches!(
        kem.encaps(&PublicKey::from_vec(vec![0u8; 799])),
        Err(KemError::InvalidKeySize)
    ));
    assert!(matches!(
        kem.decaps(&Ciphertext::from_vec(vec![0u8; 767]), &sk),
        Err(KemError::InvalidCiphertextSize)
    ));
    assert!(matches!(
        kem.decaps(&Ciphertext::from_vec(vec![0u8; 767]), &SecretKey::from_vec(vec![0u8; 3])),
        Err(KemError::InvalidCiphertextSize)
    ));
    assert!(matches!(
        kem.decaps(&ct, &SecretKey::from_vec(vec![0u8; 1631])),
        Err(KemError::InvalidKeySize)
    ));
}

#[test]
fn kem_error_messages() {
    assert_eq!(KemError::InvalidKeySize.message(), "Invalid key size provided");
    assert_eq!(KemError::InvalidCiphertextSize.message(), "Invalid ciphertext size");
    assert_eq!(KemError::EncapsulationError.message(), "Encapsulation operation failed");
    assert_eq!(KemError::DecapsulationError.message(), "Decapsulation operation failed");
    assert_eq!(
        KemError::RandomError(rand::Error::new("no entropy")).message(),
        "Cryptographic RNG failure: no entropy"
    );
}

#[test]
fn dilithium_lengths() {
    assert_eq!(Dilithium::public_key_bytes(), 1312);
    assert_eq!(Dilithium::secret_key_bytes(), 2560);
    assert_eq!(Dilithium::signature_bytes(), 2420);
    let (pk, sk) = Dilithium::new().keygen().unwrap();
    assert_eq!(pk.as_bytes().len(), 1312);
    assert_eq!(sk.as_bytes().len(), 2560);
}

#[test]
fn dilithium_keys_from_bytes() {
    assert_eq!(
        DilithiumPublicKey::from_bytes(&[0u8; 1311]).err(),
        Some(DilithiumError::InvalidPublicKey)
    );
    assert_eq!(
        DilithiumSecretKey::from_bytes(&[0u8; 2561]).err(),
        Some(DilithiumError::InvalidSecretKey)
    );
    assert_eq!(
        DilithiumSignature::from_bytes(&[0u8; 2419]).err(),
        Some(DilithiumError::InvalidSignature)
    );
    let bytes: Vec<u8> = (0..1312u32).map(|i| i as u8).collect();
    let pk = DilithiumPublicKey::from_bytes(&bytes).unwrap();
    assert_eq!(pk.as_bytes(), &bytes[..]);
    assert_eq!(pk.duplicate().as_bytes(), &bytes[..]);
    let sk = DilithiumSecretKey::from_bytes(&[4u8; 2560]).unwrap();
    assert_eq!(sk.as_bytes(), &[4u8; 2560][..]);
    let sig = DilithiumSignature::from_bytes(&[6u8; 2420]).unwrap();
    assert_eq!(sig.as_bytes(), &[6u8; 2420][..]);
}

#[test]
fn dilithium_sign_and_verify() {
    let scheme = Dilithium::new();
    let (pk, sk) = scheme.keygen().unwrap();
    let message = b"exchange key bytes";
    let signature = scheme.sign(message, &sk).unwrap();
    assert_eq!(signature.as_bytes().len(), 2420 + message.len());
    assert_eq!(&signature.as_bytes()[2420..], message);
    assert_eq!(scheme.sign(message, &sk).unwrap().as_bytes(), signature.as_bytes());
    assert_eq!(scheme.verify(message, &signature, &pk), Ok(true));
    assert_eq!(scheme.verify(b"exchange key byteS", &signature, &pk), Ok(false));
    let (other_pk, _) = scheme.keygen().unwrap();
    assert_eq!(scheme.verify(message, &signature, &other_pk), Ok(false));
    let short = DilithiumSignature::from_bytes(&[0u8; 2420]).unwrap();
    assert_eq!(scheme.verify(b"", &short, &pk), Ok(false));
}

#[test]
fn opened_message_must_match() {
    assert!(opened_matches(&Some(vec![1, 2, 3]), &[1, 2, 3]));
    assert!(!opened_matches(&Some(vec![1, 2, 3]), &[1, 2, 4]));
    assert!(!opened_matches(&Some(vec![1, 2, 3]), &[1, 2]));
    assert!(!opened_matches(&None, &[]));
    assert!(opened_matches(&Some(Vec::new()), &[]));
}

#[test]
fn byte_strings_compare_by_content() {
    assert!(bytes_equal(&[], &[]));
    assert!(bytes_equal(&[1, 2], &[1, 2]));
    assert!(!bytes_equal(&[1, 2], &[1, 3]));
    assert!(!bytes_equal(&[1, 2], &[1, 2, 3]));
}

#[test]
fn dilithium_error_messages() {
    assert_eq!(DilithiumError::InvalidPublicKey.message(), "Invalid public key");
    assert_eq!(DilithiumError::InvalidSecretKey.message(), "Invalid secret key");
    assert_eq!(DilithiumError::InvalidSignature.message(), "Invalid signature");
    assert_eq!(DilithiumError::SigningError.message(), "Signing operation failed");
    assert_eq!(DilithiumError::VerificationError.message(), "Verification failed");
}
