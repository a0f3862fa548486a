use pq_core::kem::kem::{Ciphertext, PublicKey, SecretKey, SharedSecret};
use pq_core::kem::{Kem, Kyber512};
use pq_core::protocol::{ChainKeyPair, HandshakeMessage, PQError, PQState, Role};
use pq_core::sig::dilithium::{Dilithium, DilithiumPublicKey};
use pq_core::PQSession;

fn established_pair() -> (PQSession, PQSession) {
    let mut alice = PQSession::new();
    let mut bob = PQSession::new();
    let offer = alice.initiate_handshake().unwrap();
    let reply = bob.process_handshake(offer).unwrap();
    alice.complete_handshake(reply).unwrap();
    (alice, bob)
}

fn flip_first_byte(bytes: &[u8]) -> Vec<u8> {
    let mut out = bytes.to_vec();
    out[0] ^= 0x01;
    out
}

#[test]
fn test_full_session() {
    let mut alice = PQSession::new();
    let mut bob = PQSession::new();

    // Alice initiates
    let handshake = alice.initiate_handshake().unwrap();

    // Bob processes handshake
    let response = bob.process_handshake(handshake).unwrap();

    // Alice completes handshake
    alice.complete_handshake(response).unwrap();

    // Now test message exchange
    let plaintext = b"PQ-Core test message";
    let ciphertext = alice.encrypt(plaintext).unwrap();
    let decrypted = bob.decrypt(&ciphertext).unwrap();

    assert_eq!(plaintext, decrypted.as_slice());
}

#[test]
fn new_session_is_fresh() {
    let s = PQSession::new();
    assert_eq!(s.state(), PQState::Init);
    assert_eq!(s.tx_key(), [0u8; 32]);
    assert_eq!(s.rx_key(), [0u8; 32]);
    assert_eq!(s.send_counter(), 0);
    assert_eq!(s.recv_counter(), 0);
}

#[test]
fn handshake_leaves_cross_matching_keys() {
    let (alice, bob) = established_pair();
    assert_eq!(alice.state(), PQState::Established);
    assert_eq!(bob.state(), PQState::Established);
    assert_eq!(alice.tx_key(), bob.rx_key());
    assert_eq!(alice.rx_key(), bob.tx_key());
    assert_ne!(alice.tx_key(), [0u8; 32]);
    assert_ne!(alice.tx_key(), alice.rx_key());
}

#[test]
fn offer_has_expected_shape() {
    let mut alice = PQSession::new();
    let offer = alice.initiate_handshake().unwrap();
    assert_eq!(alice.state(), PQState::HandshakeSent);
    assert_eq!(offer.kem_pk.as_ref().len(), 800);
    assert_eq!(offer.sig_pk.as_bytes().len(), 1312);
    assert_eq!(offer.sig_pk.as_bytes(), alice.identity().as_bytes());
    assert_eq!(offer.signature.as_bytes().len(), 2420 + 800);
    assert_eq!(&offer.signature.as_bytes()[2420..], offer.kem_pk.as_ref());
    assert!(offer.ciphertext.as_ref().is_empty());
    assert!(offer.is_authentic());
}

#[test]
fn reply_has_expected_shape() {
    let mut alice = PQSession::new();
    let mut bob = PQSession::new();
    let offer = alice.initiate_handshake().unwrap();
    let nonce = offer.nonce;
    let reply = bob.process_handshake(offer).unwrap();
    assert_eq!(bob.state(), PQState::Established);
    assert_eq!(reply.nonce, nonce.wrapping_add(1));
    assert_eq!(reply.ciphertext.as_ref().len(), 768);
    assert_eq!(reply.kem_pk.as_ref().len(), 800);
    assert!(reply.is_authentic());
    assert_eq!(bob.send_counter(), 0);
    assert_eq!(bob.recv_counter(), 0);
}

#[test]
fn tampered_exchange_key_is_rejected_by_responder() {
    let mut alice = PQSession::new();
    let mut bob = PQSession::new();
    let mut offer = alice.initiate_handshake().unwrap();
    offer.kem_pk = PublicKey::from_vec(flip_first_byte(offer.kem_pk.as_ref()));
    assert!(!offer.is_authentic());
    assert_eq!(bob.process_handshake(offer).err(), Some(PQError::InvalidSignature));
    assert_eq!(bob.state(), PQState::Failed);
    assert_eq!(bob.tx_key(), [0u8; 32]);
}

#[test]
fn tampered_signing_key_is_rejected_by_responder() {
    let mut alice = PQSession::new();
    let mut bob = PQSession::new();
    let mut offer = alice.initiate_handshake().unwrap();
    offer.sig_pk = DilithiumPublicKey::from_bytes(&flip_first_byte(offer.sig_pk.as_bytes())).unwrap();
    assert_eq!(bob.process_handshake(offer).err(), Some(PQError::InvalidSignature));
    assert_eq!(bob.state(), PQState::Failed);
}

#[test]
fn tampered_reply_is_rejected_by_initiator() {
    let mut alice = PQSession::new();
    let mut bob = PQSession::new();
    let offer = alice.initiate_handshake().unwrap();
    let mut reply = bob.process_handshake(offer).unwrap();
    let last = reply.kem_pk.as_ref().len() - 1;
    let mut bytes = reply.kem_pk.as_ref().to_vec();
    bytes[last] ^= 0x80;
    reply.kem_pk = PublicKey::from_vec(bytes);
    assert_eq!(alice.complete_handshake(reply), Err(PQError::InvalidSignature));
    assert_eq!(alice.state(), PQState::Failed);
}

#[test]
fn reply_with_short_ciphertext_fails_the_session() {
    let mut alice = PQSession::new();
    let mut bob = PQSession::new();
    let offer = alice.initiate_handshake().unwrap();
    let mut reply = bob.process_handshake(offer).unwrap();
    reply.ciphertext = Ciphertext::from_vec(vec![0u8; 10]);
    assert_eq!(alice.complete_handshake(reply), Err(PQError::Other));
    assert_eq!(alice.state(), PQState::Failed);
}

#[test]
fn offer_with_short_exchange_key_fails_the_session() {
    let sig = Dilithium::new();
    let (sig_pk, sig_sk) = sig.keygen().unwrap();
    let short_key = vec![7u8; 5];
    let signature = sig.sign(&short_key, &sig_sk).unwrap();
    let offer = HandshakeMessage {
        kem_pk: PublicKey::from_vec(short_key),
        sig_pk,
        signature,
        nonce: 1,
        ciphertext: Ciphertext::from_vec(Vec::new()),
    };
    assert!(offer.is_authentic());
    let mut bob = PQSession::new();
    assert_eq!(bob.process_handshake(offer).err(), Some(PQError::Other));
    assert_eq!(bob.state(), PQState::Failed);
}

#[test]
fn round_trip_of_empty_and_large_plaintexts() {
    let (mut alice, mut bob) = established_pair();
    let empty = alice.encrypt(b"").unwrap();
    assert_eq!(empty.len(), 8 + 16);
    assert_eq!(bob.decrypt(&empty).unwrap(), Vec::<u8>::new());
    let large: Vec<u8> = (0..100_000u32).map(|i| (i % 251) as u8).collect();
    let frame = alice.encrypt(&large).unwrap();
    assert_eq!(frame.len(), 8 + large.len() + 16);
    assert_eq!(bob.decrypt(&frame).unwrap(), large);
}

#[test]
fn round_trip_in_both_directions() {
    let (mut alice, mut bob) = established_pair();
    let to_bob = alice.encrypt(b"ping").unwrap();
    assert_eq!(bob.decrypt(&to_bob).unwrap(), b"ping".to_vec());
    let to_alice = bob.encrypt(b"pong").unwrap();
    assert_eq!(alice.decrypt(&to_alice).unwrap(), b"pong".to_vec());
}

#[test]
fn frames_carry_increasing_counters() {
    let (mut alice, _bob) = established_pair();
    for expected in 0u64..5 {
        let frame = alice.encrypt(b"m").unwrap();
        assert_eq!(&frame[..8], &expected.to_le_bytes());
        assert_eq!(alice.send_counter(), expected + 1);
    }
}

#[test]
fn replayed_frame_is_rejected() {
    let (mut alice, mut bob) = established_pair();
    let frame = alice.encrypt(b"once").unwrap();
    assert_eq!(bob.decrypt(&frame).unwrap(), b"once".to_vec());
    assert_eq!(bob.decrypt(&frame), Err(PQError::ReplayRejected));
    assert_eq!(bob.state(), PQState::Established);
    assert_eq!(bob.recv_counter(), 1);
}

#[test]
fn forward_gap_is_tolerated_and_skipped_frames_become_stale() {
    let (mut alice, mut bob) = established_pair();
    let first = alice.encrypt(b"first").unwrap();
    let second = alice.encrypt(b"second").unwrap();
    let third = alice.encrypt(b"third").unwrap();
    assert_eq!(bob.decrypt(&third).unwrap(), b"third".to_vec());
    assert_eq!(bob.recv_counter(), 3);
    assert_eq!(bob.decrypt(&first), Err(PQError::ReplayRejected));
    assert_eq!(bob.decrypt(&second), Err(PQError::ReplayRejected));
}

#[test]
fn short_and_forged_frames_are_dropped() {
    let (mut alice, mut bob) = established_pair();
    assert_eq!(bob.decrypt(&[0u8; 7]), Err(PQError::InvalidCiphertext));
    assert_eq!(bob.decrypt(&[0u8; 8]), Err(PQError::InvalidCiphertext));
    let mut frame = alice.encrypt(b"payload").unwrap();
    let last = frame.len() - 1;
    frame[last] ^= 1;
    assert_eq!(bob.decrypt(&frame), Err(PQError::InvalidCiphertext));
    assert_eq!(bob.recv_counter(), 0);
    assert_eq!(bob.state(), PQState::Established);
    frame[last] ^= 1;
    assert_eq!(bob.decrypt(&frame).unwrap(), b"payload".to_vec());
}

#[test]
fn frame_under_a_changed_counter_does_not_authenticate() {
    let (mut alice, mut bob) = established_pair();
    let mut frame = alice.encrypt(b"payload").unwrap();
    frame[0] = 9;
    assert_eq!(bob.decrypt(&frame), Err(PQError::InvalidCiphertext));
}

#[test]
fn transport_before_establishment_is_a_state_violation() {
    let mut s = PQSession::new();
    assert_eq!(s.encrypt(b"x"), Err(PQError::StateViolation));
    assert_eq!(s.decrypt(&[0u8; 40]), Err(PQError::StateViolation));
    assert_eq!(s.state(), PQState::Init);
    assert_eq!(s.send_counter(), 0);
    let _ = s.initiate_handshake().unwrap();
    assert_eq!(s.encrypt(b"x"), Err(PQError::StateViolation));
    assert_eq!(s.decrypt(&[0u8; 40]), Err(PQError::StateViolation));
    assert_eq!(s.state(), PQState::HandshakeSent);
}

#[test]
fn complete_from_init_is_a_state_violation() {
    let mut alice = PQSession::new();
    let mut bob = PQSession::new();
    let mut carol = PQSession::new();
    let offer = alice.initiate_handshake().unwrap();
    let reply = bob.process_handshake(offer).unwrap();
    assert_eq!(carol.complete_handshake(reply.clone()), Err(PQError::StateViolation));
    assert_eq!(carol.state(), PQState::Init);
    assert_eq!(alice.complete_handshake(reply), Ok(()));
}

#[test]
fn handshake_steps_out_of_order_are_state_violations() {
    let (mut alice, mut bob) = established_pair();
    assert_eq!(alice.initiate_handshake().err(), Some(PQError::StateViolation));
    assert_eq!(alice.state(), PQState::Established);
    let mut carol = PQSession::new();
    let offer = carol.initiate_handshake().unwrap();
    assert_eq!(carol.initiate_handshake().err(), Some(PQError::StateViolation));
    assert_eq!(carol.process_handshake(offer.clone()).err(), Some(PQError::StateViolation));
    assert_eq!(carol.state(), PQState::HandshakeSent);
    assert_eq!(bob.process_handshake(offer).err(), Some(PQError::StateViolation));
    assert_eq!(bob.state(), PQState::Established);
    let frame = alice.encrypt(b"still works").unwrap();
    assert_eq!(bob.decrypt(&frame).unwrap(), b"still works".to_vec());
}

#[test]
fn alice_and_bob_say_hello() {
    let mut alice = PQSession::new();
    let mut bob = PQSession::new();
    let m1 = alice.initiate_handshake().unwrap();
    let m2 = bob.process_handshake(m1).unwrap();
    assert_eq!(alice.complete_handshake(m2), Ok(()));
    let f = alice.encrypt(b"hello").unwrap();
    assert_eq!(bob.decrypt(&f), Ok(b"hello".to_vec()));
}

#[test]
fn establish_on_given_secret_gives_known_keys() {
    let secret: Vec<u8> = (0u8..32).collect();
    let tx = [
        225u8, 83, 90, 172, 137, 204, 162, 59, 247, 226, 126, 199, 174, 100, 20, 168, 237, 193, 56,
        50, 170, 32, 236, 25, 195, 56, 42, 37, 220, 191, 107, 230,
    ];
    let rx = [
        170u8, 112, 227, 58, 139, 249, 158, 178, 184, 51, 9, 245, 194, 77, 14, 35, 235, 54, 47, 109,
        223, 146, 40, 94, 240, 178, 158, 117, 138, 101, 220, 82,
    ];
    let mut responder = PQSession::new();
    assert_eq!(
        responder.establish(Role::Initiator, &SharedSecret::from_vec(secret.clone())),
        Err(PQError::StateViolation)
    );
    assert_eq!(responder.state(), PQState::Init);
    assert_eq!(responder.establish(Role::Responder, &SharedSecret::from_vec(secret.clone())), Ok(()));
    assert_eq!(responder.state(), PQState::Established);
    assert_eq!(responder.tx_key(), rx);
    assert_eq!(responder.rx_key(), tx);

    let mut initiator = PQSession::new();
    let kem = Kyber512::new();
    let (pk, sk) = kem.keygen().unwrap();
    let sig = Dilithium::new();
    let (_, sig_sk) = sig.keygen().unwrap();
    let signature = sig.sign(pk.as_ref(), &sig_sk).unwrap();
    let offer = initiator.offer(pk.clone(), sk, signature, 41).unwrap();
    assert_eq!(offer.nonce, 41);
    assert_eq!(offer.kem_pk, pk);
    assert!(offer.ciphertext.as_ref().is_empty());
    assert_eq!(initiator.state(), PQState::HandshakeSent);
    assert_eq!(initiator.establish(Role::Initiator, &SharedSecret::from_vec(secret)), Ok(()));
    assert_eq!(initiator.tx_key(), tx);
    assert_eq!(initiator.rx_key(), rx);

    let frame = initiator.encrypt(b"hello").unwrap();
    assert_eq!(
        frame,
        vec![
            0, 0, 0, 0, 0, 0, 0, 0, 244, 167, 18, 225, 48, 154, 10, 42, 35, 133, 254, 42, 175, 80,
            120, 234, 81, 110, 101, 248, 227
        ]
    );
    assert_eq!(responder.decrypt(&frame), Ok(b"hello".to_vec()));
}

#[test]
fn accept_builds_the_reply_and_guards_the_state() {
    let secret = SharedSecret::from_vec(vec![3u8; 32]);
    let sig = Dilithium::new();
    let (_, sig_sk) = sig.keygen().unwrap();
    let reply_pk = PublicKey::from_vec(vec![1u8; 800]);
    let signature = sig.sign(reply_pk.as_ref(), &sig_sk).unwrap();
    let ct = Ciphertext::from_vec(vec![2u8; 768]);
    let mut bob = PQSession::new();
    let reply = bob.accept(u64::MAX, ct.clone(), &secret, reply_pk.clone(), signature.clone()).unwrap();
    assert_eq!(reply.nonce, 0);
    assert_eq!(reply.ciphertext, ct);
    assert_eq!(reply.kem_pk, reply_pk);
    assert_eq!(reply.signature.as_bytes(), signature.as_bytes());
    assert_eq!(bob.state(), PQState::Established);
    assert_eq!(bob.accept(1, ct, &secret, reply_pk, signature).err(), Some(PQError::StateViolation));
    assert_eq!(bob.state(), PQState::Established);
}

#[test]
fn chain_keys_follow_the_role() {
    let a = [1u8; 32];
    let b = [2u8; 32];
    let initiator = ChainKeyPair::assign(Role::Initiator, a, b);
    assert_eq!(initiator.tx_key, a);
    assert_eq!(initiator.rx_key, b);
    let responder = ChainKeyPair::assign(Role::Responder, a, b);
    assert_eq!(responder.tx_key, b);
    assert_eq!(responder.rx_key, a);
    let mut wiped = ChainKeyPair::assign(Role::Initiator, a, b);
    wiped.wipe();
    assert_eq!(wiped.tx_key, [0u8; 32]);
    assert_eq!(wiped.rx_key, [0u8; 32]);
    let zero = ChainKeyPair::zero();
    assert_eq!(zero.tx_key, [0u8; 32]);
    assert_eq!(zero.rx_key, [0u8; 32]);
    let secret = [9u8; 32];
    let i = ChainKeyPair::derive(Role::Initiator, &secret).unwrap();
    let r = ChainKeyPair::derive(Role::Responder, &secret).unwrap();
    assert_eq!(i.tx_key, r.rx_key);
    assert_eq!(i.rx_key, r.tx_key);
    assert_ne!(i.tx_key, secret);
    assert_ne!(i.tx_key, i.rx_key);
}

#[test]
fn secrets_can_be_wiped() {
    let mut sk = SecretKey::from_vec(vec![5u8; 16]);
    sk.wipe();
    assert!(sk.as_ref().is_empty());
    let mut ss = SharedSecret::from_box(vec![5u8; 16].into_boxed_slice());
    assert_eq!(ss.as_ref(), &[5u8; 16]);
    ss.wipe();
    assert!(ss.as_ref().is_empty());
}

#[test]
fn failed_session_refuses_everything() {
    let mut alice = PQSession::new();
    let mut bob = PQSession::new();
    let mut offer = alice.initiate_handshake().unwrap();
    let genuine = offer.clone();
    offer.kem_pk = PublicKey::from_vec(flip_first_byte(offer.kem_pk.as_ref()));
    assert_eq!(bob.process_handshake(offer).err(), Some(PQError::InvalidSignature));
    assert_eq!(bob.state(), PQState::Failed);
    assert_eq!(bob.process_handshake(genuine.clone()).err(), Some(PQError::StateViolation));
    assert_eq!(bob.complete_handshake(genuine), Err(PQError::StateViolation));
    assert_eq!(bob.initiate_handshake().err(), Some(PQError::StateViolation));
    assert_eq!(bob.encrypt(b"x"), Err(PQError::StateViolation));
    assert_eq!(bob.decrypt(&[0u8; 24]), Err(PQError::StateViolation));
    assert_eq!(bob.state(), PQState::Failed);
}
