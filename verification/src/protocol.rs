//! The secure-channel session: a two-message authenticated handshake that
//! leaves both peers with cross-matching chain keys, and the framed transport
//! that runs on them.

use crate::entropy::random_u64;
use crate::kdf::{hkdf_sha256_expand, hkdf_sha256_expanded};
use crate::kem::kem::{Ciphertext, Kem, PublicKey, SecretKey, SharedSecret};
use crate::kem::kyber::{
    kyber512_decapsulated,
    Kyber512,
    KYBER512_CIPHERTEXT_BYTES,
    KYBER512_PUBLIC_KEY_BYTES,
    KYBER512_SECRET_KEY_BYTES,
    KYBER512_SHARED_SECRET_BYTES,
};
use crate::sig::dilithium::{
    dilithium2_signed,
    signature_verifies,
    Dilithium,
    DilithiumPublicKey,
    DilithiumSecretKey,
    DilithiumSignature,
    DILITHIUM2_PUBLIC_KEY_BYTES,
    DILITHIUM2_SECRET_KEY_BYTES,
};
use crate::aead::{aes256gcm_opened, aes256gcm_sealed, AEAD_MAX_PLAINTEXT_BYTES};
use crate::transport::{
    advance,
    frame_counter,
    lemma_framed_parts,
    next_counter,
    nonce_of,
    open,
    opened_frame,
    seal,
    sealed_frame,
    COUNTER_BYTES,
};
use crate::wipe::{wipe_key, zero_key};
use vstd::prelude::*;

verus! {

/// Phase of a session.
#[derive(Debug, Clone, Copy, PartialEq, Eq, Structural)]
pub enum PQState {
    /// Fresh: no handshake message sent or received.
    Init,
    /// An offer was sent; the reply is awaited.
    HandshakeSent,
    /// An offer was received and awaits its answer.
    HandshakeReceived,
    /// The handshake is complete and the transport may be used.
    Established,
    /// A protocol error ended the session.
    Failed,
}

/// Why a session operation failed.
#[derive(Debug, Clone, Copy, PartialEq, Eq, Structural)]
pub enum PQError {
    /// A handshake message's signature does not verify.
    InvalidSignature,
    /// A transport frame is too short or does not authenticate.
    InvalidCiphertext,
    /// A transport frame carries a counter below the expected one.
    ReplayRejected,
    /// An operation was invoked in a state that does not allow it.
    StateViolation,
    /// An underlying primitive failed.
    Other,
}

/// Whether an operation was refused with the error `e`.
pub open spec fn refused<T>(res: Result<T, PQError>, e: PQError) -> bool {
    res matches Err(err) && err == e
}

/// Which side of the handshake a peer plays.
#[derive(Debug, Clone, Copy, PartialEq, Eq, Structural)]
pub enum Role {
    /// The peer that sends the offer and completes on the reply.
    Initiator,
    /// The peer that answers the offer.
    Responder,
}

/// The unit exchanged during the handshake.
#[derive(Debug, Clone)]
pub struct HandshakeMessage {
    pub kem_pk: PublicKey,
    pub sig_pk: DilithiumPublicKey,
    pub signature: DilithiumSignature,
    pub nonce: u64,
    pub ciphertext: Ciphertext,
}

/// A handshake message as plain values.
pub struct HandshakeMessageView {
    pub kem_pk: Seq<u8>,
    pub sig_pk: Seq<u8>,
    pub signature: Seq<u8>,
    pub nonce: u64,
    pub ciphertext: Seq<u8>,
}

impl View for HandshakeMessage {
    type V = HandshakeMessageView;

    open spec fn view(&self) -> HandshakeMessageView {
        HandshakeMessageView {
            kem_pk: self.kem_pk@,
            sig_pk: self.sig_pk@,
            signature: self.signature@,
            nonce: self.nonce,
            ciphertext: self.ciphertext@,
        }
    }
}

/// Whether a message's signature, under the signing key it carries, covers
/// the exchange key it carries.
pub open spec fn message_authentic(m: HandshakeMessageView) -> bool {
    m.sig_pk.len() == DILITHIUM2_PUBLIC_KEY_BYTES && signature_verifies(
        m.kem_pk,
        m.signature,
        m.sig_pk,
    )
}

impl HandshakeMessage {
    /// Checks the signature over the exchange key.
    pub fn is_authentic(&self) -> (ok: bool)
        ensures
            ok == message_authentic(self@),
    {
        match Dilithium::new().verify(self.kem_pk.as_ref(), &self.signature, &self.sig_pk) {
            Ok(verified) => verified,
            Err(_) => false,
        }
    }
}

/// The label under which the initiator's sending key is derived: `tx`.
pub open spec fn label_tx() -> Seq<u8> {
    seq![0x74u8, 0x78u8]
}

/// The label under which the initiator's receiving key is derived: `rx`.
pub open spec fn label_rx() -> Seq<u8> {
    seq![0x72u8, 0x78u8]
}

/// A pair of directional keys as plain values.
pub struct ChainKeys {
    pub tx_key: Seq<u8>,
    pub rx_key: Seq<u8>,
}

/// How the material derived under the two labels is handed to a role: the
/// initiator sends under the `tx` material and receives under the `rx`
/// material, the responder the other way round.
pub open spec fn assigned_keys(role: Role, tx_material: Seq<u8>, rx_material: Seq<u8>) -> ChainKeys {
    match role {
        Role::Initiator => ChainKeys { tx_key: tx_material, rx_key: rx_material },
        Role::Responder => ChainKeys { tx_key: rx_material, rx_key: tx_material },
    }
}

/// The chain keys that a role derives from a shared secret.
pub open spec fn chain_keys(role: Role, secret: Seq<u8>) -> ChainKeys {
    assigned_keys(
        role,
        hkdf_sha256_expanded(secret, label_tx()),
        hkdf_sha256_expanded(secret, label_rx()),
    )
}

/// The two directional 32-byte keys of an established session. Both are
/// overwritten with zero when the pair is dropped.
pub struct ChainKeyPair {
    pub tx_key: [u8; 32],
    pub rx_key: [u8; 32],
}

impl View for ChainKeyPair {
    type V = ChainKeys;

    open spec fn view(&self) -> ChainKeys {
        ChainKeys { tx_key: self.tx_key@, rx_key: self.rx_key@ }
    }
}

impl Drop for ChainKeyPair {
    fn drop(&mut self)
        ensures
            final(self)@ == (ChainKeys { tx_key: zero_key(), rx_key: zero_key() }),
        opens_invariants none
        no_unwind
    {
        wipe_key(&mut self.tx_key);
        wipe_key(&mut self.rx_key);
    }
}

impl ChainKeyPair {
    /// The all-zero pair a session holds before it is established.
    pub fn zero() -> (keys: Self)
        ensures
            keys@ == (ChainKeys { tx_key: zero_key(), rx_key: zero_key() }),
    {
        let keys = ChainKeyPair { tx_key: [0u8; 32], rx_key: [0u8; 32] };
        assert(keys.tx_key@ =~= zero_key());
        assert(keys.rx_key@ =~= zero_key());
        keys
    }

    /// Overwrites both keys with zero.
    pub fn wipe(&mut self)
        ensures
            final(self)@ == (ChainKeys { tx_key: zero_key(), rx_key: zero_key() }),
    {
        wipe_key(&mut self.tx_key);
        wipe_key(&mut self.rx_key);
    }

    /// Hands the material derived under the two labels to a role.
    pub fn assign(role: Role, tx_material: [u8; 32], rx_material: [u8; 32]) -> (keys: Self)
        ensures
            keys@ == assigned_keys(role, tx_material@, rx_material@),
    {
        match role {
            Role::Initiator => ChainKeyPair { tx_key: tx_material, rx_key: rx_material },
            Role::Responder => ChainKeyPair { tx_key: rx_material, rx_key: tx_material },
        }
    }

    /// Derives the chain keys of a role from a shared secret.
    pub fn derive(role: Role, secret: &[u8]) -> (res: Result<Self, PQError>)
        ensures
            res matches Ok(keys) && keys@ == chain_keys(role, secret@),
    {
        let tx_label: [u8; 2] = [0x74, 0x78];
        let rx_label: [u8; 2] = [0x72, 0x78];
        assert(tx_label@ =~= label_tx());
        assert(rx_label@ =~= label_rx());
        let tx_material = match hkdf_sha256_expand(secret, tx_label.as_slice()) {
            Ok(key) => key,
            Err(_) => {
                return Err(PQError::Other);
            },
        };
        let rx_material = match hkdf_sha256_expand(secret, rx_label.as_slice()) {
            Ok(key) => key,
            Err(_) => {
                return Err(PQError::Other);
            },
        };
        Ok(Self::assign(role, tx_material, rx_material))
    }
}

/// One peer's end of a channel as plain values.
pub struct SessionView {
    pub state: PQState,
    /// The long-term signing identity.
    pub sig_pk: Seq<u8>,
    pub sig_sk: Seq<u8>,
    /// The secret half of the current exchange key pair; empty when none is
    /// held.
    pub kem_sk: Seq<u8>,
    pub tx_key: Seq<u8>,
    pub rx_key: Seq<u8>,
    /// The counter the next frame sent will carry.
    pub send_counter: u64,
    /// The lowest counter accepted from the peer.
    pub recv_counter: u64,
}

/// What holds of every session: the identity keys have their fixed lengths,
/// and until the session is established the chain keys are all zero and
/// both counters are zero.
pub open spec fn session_wf(s: SessionView) -> bool {
    &&& s.sig_pk.len() == DILITHIUM2_PUBLIC_KEY_BYTES
    &&& s.sig_sk.len() == DILITHIUM2_SECRET_KEY_BYTES
    &&& s.tx_key.len() == 32
    &&& s.rx_key.len() == 32
    &&& s.state != PQState::Established ==> {
        &&& s.tx_key == zero_key()
        &&& s.rx_key == zero_key()
        &&& s.send_counter == 0
        &&& s.recv_counter == 0
    }
}

/// The session after a protocol error: failed, with no exchange secret.
pub open spec fn failed(pre: SessionView) -> SessionView {
    SessionView { state: PQState::Failed, kem_sk: Seq::empty(), ..pre }
}

/// The session after an offer was sent with `kem_sk` retained for the reply.
pub open spec fn offered(pre: SessionView, kem_sk: Seq<u8>) -> SessionView {
    SessionView { state: PQState::HandshakeSent, kem_sk, ..pre }
}

/// The session after the handshake completed with `keys`: established, the
/// exchange secret gone, both counters at zero.
pub open spec fn established(pre: SessionView, keys: ChainKeys) -> SessionView {
    SessionView {
        state: PQState::Established,
        kem_sk: Seq::empty(),
        tx_key: keys.tx_key,
        rx_key: keys.rx_key,
        send_counter: 0,
        recv_counter: 0,
        ..pre
    }
}

/// The state from which a role may establish the session.
pub open spec fn entry_state(role: Role) -> PQState {
    match role {
        Role::Initiator => PQState::HandshakeSent,
        Role::Responder => PQState::Init,
    }
}

/// The offer that a session sends for an exchange key, its signature and a
/// nonce: it carries the session's signing key and no ciphertext.
pub open spec fn offer_message(
    pre: SessionView,
    kem_pk: Seq<u8>,
    signature: Seq<u8>,
    nonce: u64,
) -> HandshakeMessageView {
    HandshakeMessageView {
        kem_pk,
        sig_pk: pre.sig_pk,
        signature,
        nonce,
        ciphertext: Seq::empty(),
    }
}

/// The reply that a session sends to an offer stamped `peer_nonce`: it
/// carries the ciphertext for the offering peer and the nonce after
/// `peer_nonce`.
pub open spec fn reply_message(
    pre: SessionView,
    peer_nonce: u64,
    ciphertext: Seq<u8>,
    kem_pk: Seq<u8>,
    signature: Seq<u8>,
) -> HandshakeMessageView {
    HandshakeMessageView {
        kem_pk,
        sig_pk: pre.sig_pk,
        signature,
        nonce: next_counter(peer_nonce),
        ciphertext,
    }
}

/// A successful `initiate_handshake`: the session went from `pre` to `post`
/// and sent `offer`.
pub open spec fn initiated(pre: SessionView, post: SessionView, offer: HandshakeMessageView) -> bool {
    &&& pre.state == PQState::Init
    &&& post == offered(pre, post.kem_sk)
    &&& post.kem_sk.len() == KYBER512_SECRET_KEY_BYTES
    &&& offer == offer_message(pre, offer.kem_pk, offer.signature, offer.nonce)
    &&& offer.kem_pk.len() == KYBER512_PUBLIC_KEY_BYTES
    &&& offer.signature == dilithium2_signed(offer.kem_pk, pre.sig_sk)
}

/// A successful `process_handshake`: the session went from `pre` to `post`
/// on `offer`, encapsulated `secret`, and sent `reply`.
pub open spec fn responded(
    pre: SessionView,
    offer: HandshakeMessageView,
    secret: Seq<u8>,
    post: SessionView,
    reply: HandshakeMessageView,
) -> bool {
    &&& pre.state == PQState::Init
    &&& message_authentic(offer)
    &&& secret.len() == KYBER512_SHARED_SECRET_BYTES
    &&& post == established(pre, chain_keys(Role::Responder, secret))
    &&& reply == reply_message(pre, offer.nonce, reply.ciphertext, reply.kem_pk, reply.signature)
    &&& reply.ciphertext.len() == KYBER512_CIPHERTEXT_BYTES
    &&& reply.kem_pk.len() == KYBER512_PUBLIC_KEY_BYTES
    &&& reply.signature == dilithium2_signed(reply.kem_pk, pre.sig_sk)
}

/// Why `process_handshake` refuses an offer, if it does: outside `Init` the
/// call is a state violation; an offer whose signature does not verify is
/// invalid; an exchange key of the wrong length makes encapsulation fail.
pub open spec fn process_refusal(pre: SessionView, offer: HandshakeMessageView) -> Option<PQError> {
    if pre.state != PQState::Init {
        Some(PQError::StateViolation)
    } else if !message_authentic(offer) {
        Some(PQError::InvalidSignature)
    } else if offer.kem_pk.len() != KYBER512_PUBLIC_KEY_BYTES {
        Some(PQError::Other)
    } else {
        None
    }
}

/// The session after a refusal: a state violation leaves it as it was, every
/// other error ends it.
pub open spec fn after_refusal(pre: SessionView, error: PQError) -> SessionView {
    if error == PQError::StateViolation {
        pre
    } else {
        failed(pre)
    }
}

/// What `complete_handshake` returns on a reply and the session it leaves.
pub open spec fn complete_outcome(pre: SessionView, reply: HandshakeMessageView) -> (
    Result<(), PQError>,
    SessionView,
) {
    if pre.state != PQState::HandshakeSent {
        (Err(PQError::StateViolation), pre)
    } else if !message_authentic(reply) {
        (Err(PQError::InvalidSignature), failed(pre))
    } else if reply.ciphertext.len() != KYBER512_CIPHERTEXT_BYTES || pre.kem_sk.len()
        != KYBER512_SECRET_KEY_BYTES {
        (Err(PQError::Other), failed(pre))
    } else {
        (
            Ok(()),
            established(
                pre,
                chain_keys(Role::Initiator, kyber512_decapsulated(reply.ciphertext, pre.kem_sk)),
            ),
        )
    }
}

/// A successful `complete_handshake`: the session went from `pre` to `post`
/// on `reply`.
pub open spec fn completed(pre: SessionView, reply: HandshakeMessageView, post: SessionView) -> bool {
    complete_outcome(pre, reply) == (Ok::<(), PQError>(()), post)
}

/// What `encrypt` returns for a plaintext and the session it leaves.
pub open spec fn encrypt_outcome(pre: SessionView, plaintext: Seq<u8>) -> (
    Result<Seq<u8>, PQError>,
    SessionView,
) {
    if pre.state != PQState::Established {
        (Err(PQError::StateViolation), pre)
    } else {
        match sealed_frame(pre.tx_key, pre.send_counter, plaintext) {
            Some(frame) => (
                Ok(frame),
                SessionView { send_counter: next_counter(pre.send_counter), ..pre },
            ),
            None => (Err(PQError::Other), pre),
        }
    }
}

/// What `decrypt` returns for a frame and the session it leaves.
pub open spec fn decrypt_outcome(pre: SessionView, frame: Seq<u8>) -> (
    Result<Seq<u8>, PQError>,
    SessionView,
) {
    if pre.state != PQState::Established {
        (Err(PQError::StateViolation), pre)
    } else {
        match opened_frame(pre.rx_key, pre.recv_counter, frame) {
            Ok((plaintext, next)) => (Ok(plaintext), SessionView { recv_counter: next, ..pre }),
            Err(e) => (Err(e), pre),
        }
    }
}

/// The result of a transport operation as plain values.
pub open spec fn bytes_result(res: Result<Vec<u8>, PQError>) -> Result<Seq<u8>, PQError> {
    match res {
        Ok(bytes) => Ok(bytes@),
        Err(e) => Err(e),
    }
}

/// One peer's end of a secure channel.
pub struct PQSession {
    state: PQState,
    kem: Kyber512,
    sig: Dilithium,
    sk: SecretKey,
    sig_sk: DilithiumSecretKey,
    sig_pk: DilithiumPublicKey,
    keys: ChainKeyPair,
    send_counter: u64,
    recv_counter: u64,
}

impl View for PQSession {
    type V = SessionView;

    closed spec fn view(&self) -> SessionView {
        SessionView {
            state: self.state,
            sig_pk: self.sig_pk@,
            sig_sk: self.sig_sk@,
            kem_sk: self.sk@,
            tx_key: self.keys.tx_key@,
            rx_key: self.keys.rx_key@,
            send_counter: self.send_counter,
            recv_counter: self.recv_counter,
        }
    }
}

impl PQSession {
    /// Whether the session satisfies the invariant of all sessions.
    pub open spec fn wf(&self) -> bool {
        session_wf(self@)
    }

    /// A fresh session with a new signing identity: in `Init`, holding no
    /// exchange secret, with zero chain keys and zero counters.
    pub fn new() -> (session: Self)
        ensures
            session.wf(),
            session@.state == PQState::Init,
            session@.kem_sk.len() == 0,
    {
        let kem = Kyber512::new();
        let sig = Dilithium::new();
        let identity = sig.keygen();
        let (sig_pk, sig_sk) = identity.unwrap();
        PQSession {
            state: PQState::Init,
            kem,
            sig,
            sk: SecretKey::from_vec(Vec::new()),
            sig_sk,
            sig_pk,
            keys: ChainKeyPair::zero(),
            send_counter: 0,
            recv_counter: 0,
        }
    }

    /// The public half of the session's signing identity.
    pub fn identity(&self) -> (key: &DilithiumPublicKey)
        ensures
            key@ == self@.sig_pk,
    {
        &self.sig_pk
    }

    /// The phase the session is in.
    pub fn state(&self) -> (state: PQState)
        ensures
            state == self@.state,
    {
        self.state
    }

    /// The key under which this session seals what it sends.
    pub fn tx_key(&self) -> (key: [u8; 32])
        ensures
            key@ == self@.tx_key,
    {
        self.keys.tx_key
    }

    /// The key under which this session opens what it receives.
    pub fn rx_key(&self) -> (key: [u8; 32])
        ensures
            key@ == self@.rx_key,
    {
        self.keys.rx_key
    }

    /// The counter the next frame sent will carry.
    pub fn send_counter(&self) -> (counter: u64)
        ensures
            counter == self@.send_counter,
    {
        self.send_counter
    }

    /// The lowest counter accepted from the peer.
    pub fn recv_counter(&self) -> (counter: u64)
        ensures
            counter == self@.recv_counter,
    {
        self.recv_counter
    }

    /// Ends the session after a protocol error and wipes the exchange secret.
    fn fail(&mut self)
        requires
            old(self).wf(),
            old(self)@.state != PQState::Established,
        ensures
            final(self).wf(),
            final(self)@ == failed(old(self)@),
    {
        self.state = PQState::Failed;
        self.sk.wipe();
        assert(self.sk@ =~= Seq::empty());
    }

    /// Records that an offer goes out for the exchange key pair
    /// `kem_pk`/`kem_sk`, signed as `signature` and stamped `nonce`, and
    /// builds that offer. Allowed only in `Init`; elsewhere the session is
    /// left as it is.
    pub fn offer(
        &mut self,
        kem_pk: PublicKey,
        kem_sk: SecretKey,
        signature: DilithiumSignature,
        nonce: u64,
    ) -> (res: Result<HandshakeMessage, PQError>)
        requires
            old(self).wf(),
        ensures
            final(self).wf(),
            old(self)@.state != PQState::Init ==> refused(res, PQError::StateViolation)
                && final(self)@ == old(self)@,
            old(self)@.state == PQState::Init ==> (res matches Ok(m) && m@ == offer_message(
                old(self)@,
                kem_pk@,
                signature@,
                nonce,
            ) && final(self)@ == offered(old(self)@, kem_sk@)),
    {
        if self.state != PQState::Init {
            return Err(PQError::StateViolation);
        }
        self.sk = kem_sk;
        self.state = PQState::HandshakeSent;
        let m = HandshakeMessage {
            kem_pk,
            sig_pk: self.sig_pk.duplicate(),
            signature,
            nonce,
            ciphertext: Ciphertext::from_vec(Vec::new()),
        };
        assert(m@.ciphertext =~= Seq::empty());
        Ok(m)
    }

    /// Establishes the session on a shared secret: derives the chain keys of
    /// `role`, resets both counters and wipes the exchange secret. Allowed
    /// only in the entry state of `role`; elsewhere the session is left as
    /// it is.
    pub fn establish(&mut self, role: Role, secret: &SharedSecret) -> (res: Result<(), PQError>)
        requires
            old(self).wf(),
        ensures
            final(self).wf(),
            old(self)@.state != entry_state(role) ==> refused(res, PQError::StateViolation)
                && final(self)@ == old(self)@,
            old(self)@.state == entry_state(role) ==> res == Ok::<(), PQError>(()) && final(self)@
                == established(
                old(self)@,
                chain_keys(role, secret@),
            ),
    {
        let entry = match role {
            Role::Initiator => PQState::HandshakeSent,
            Role::Responder => PQState::Init,
        };
        if self.state != entry {
            return Err(PQError::StateViolation);
        }
        match ChainKeyPair::derive(role, secret.as_ref()) {
            Ok(keys) => {
                self.keys = keys;
                self.send_counter = 0;
                self.recv_counter = 0;
                self.sk.wipe();
                self.state = PQState::Established;
                assert(self.sk@ =~= Seq::empty());
                Ok(())
            },
            Err(e) => {
                self.fail();
                Err(e)
            },
        }
    }

    /// Establishes the session as responder on `secret` and builds the reply
    /// to an offer stamped `peer_nonce`: the reply carries `ciphertext`, the
    /// exchange key `reply_pk` signed as `reply_signature`, and the nonce
    /// after `peer_nonce`. Allowed only in `Init`; elsewhere the session is
    /// left as it is.
    pub fn accept(
        &mut self,
        peer_nonce: u64,
        ciphertext: Ciphertext,
        secret: &SharedSecret,
        reply_pk: PublicKey,
        reply_signature: DilithiumSignature,
    ) -> (res: Result<HandshakeMessage, PQError>)
        requires
            old(self).wf(),
        ensures
            final(self).wf(),
            old(self)@.state != PQState::Init ==> refused(res, PQError::StateViolation)
                && final(self)@ == old(self)@,
            old(self)@.state == PQState::Init ==> (res matches Ok(m) && m@ == reply_message(
                old(self)@,
                peer_nonce,
                ciphertext@,
                reply_pk@,
                reply_signature@,
            ) && final(self)@ == established(old(self)@, chain_keys(Role::Responder, secret@))),
    {
        match self.establish(Role::Responder, secret) {
            Ok(()) => Ok(
                HandshakeMessage {
                    kem_pk: reply_pk,
                    sig_pk: self.sig_pk.duplicate(),
                    signature: reply_signature,
                    nonce: advance(peer_nonce),
                    ciphertext,
                },
            ),
            Err(e) => Err(e),
        }
    }

    /// Starts a handshake: generates a fresh exchange key pair, keeps its
    /// secret half, signs the public half with the session's identity and
    /// returns the offer, stamped with a random nonce.
    ///
    /// Outside `Init` this is a `StateViolation` and the session is left as
    /// it is. In `Init` the only failure is that of the random number
    /// generator, reported as `Other`, which ends the session.
    pub fn initiate_handshake(&mut self) -> (res: Result<HandshakeMessage, PQError>)
        requires
            old(self).wf(),
        ensures
            final(self).wf(),
            old(self)@.state != PQState::Init ==> refused(res, PQError::StateViolation)
                && final(self)@ == old(self)@,
            old(self)@.state == PQState::Init ==> match res {
                Ok(offer) => initiated(old(self)@, final(self)@, offer@),
                Err(e) => e == PQError::Other && final(self)@ == failed(old(self)@),
            },
    {
        if self.state != PQState::Init {
            return Err(PQError::StateViolation);
        }
        let nonce = match random_u64() {
            Ok(n) => n,
            Err(_) => {
                self.fail();
                return Err(PQError::Other);
            },
        };
        let (pk, sk) = match self.kem.keygen() {
            Ok(pair) => pair,
            Err(_) => {
                self.fail();
                return Err(PQError::Other);
            },
        };
        let signature = match self.sig.sign(pk.as_ref(), &self.sig_sk) {
            Ok(s) => s,
            Err(_) => {
                self.fail();
                return Err(PQError::InvalidSignature);
            },
        };
        self.offer(pk, sk, signature, nonce)
    }

    /// Answers an offer: verifies its signature, encapsulates a fresh secret
    /// to its exchange key, derives the responder's chain keys from that
    /// secret and returns the signed reply that carries the ciphertext.
    ///
    /// Outside `Init` this is a `StateViolation` and the session is left as
    /// it is. An offer whose signature does not verify is refused as
    /// `InvalidSignature`, and one whose exchange key has the wrong length as
    /// `Other`; both end the session. Every other offer is answered.
    pub fn process_handshake(&mut self, msg: HandshakeMessage) -> (res: Result<
        HandshakeMessage,
        PQError,
    >)
        requires
            old(self).wf(),
        ensures
            final(self).wf(),
            match process_refusal(old(self)@, msg@) {
                Some(e) => refused(res, e) && final(self)@ == after_refusal(old(self)@, e),
                None => res matches Ok(reply) && exists|secret: Seq<u8>|
                    responded(old(self)@, msg@, secret, final(self)@, reply@),
            },
    {
        if self.state != PQState::Init {
            return Err(PQError::StateViolation);
        }
        if !msg.is_authentic() {
            self.fail();
            return Err(PQError::InvalidSignature);
        }
        let (ciphertext, secret) = match self.kem.encaps(&msg.kem_pk) {
            Ok(pair) => pair,
            Err(_) => {
                self.fail();
                return Err(PQError::Other);
            },
        };
        let (reply_pk, _reply_sk) = match self.kem.keygen() {
            Ok(pair) => pair,
            Err(_) => {
                self.fail();
                return Err(PQError::Other);
            },
        };
        let reply_signature = match self.sig.sign(reply_pk.as_ref(), &self.sig_sk) {
            Ok(s) => s,
            Err(_) => {
                self.fail();
                return Err(PQError::InvalidSignature);
            },
        };
        let res = self.accept(msg.nonce, ciphertext, &secret, reply_pk, reply_signature);
        proof {
            if res is Ok {
                assert(responded(old(self)@, msg@, secret@, self@, res->Ok_0@));
            }
        }
        res
    }

    /// Completes the handshake on the reply: verifies its signature,
    /// decapsulates its ciphertext with the exchange secret kept since the
    /// offer, and derives the initiator's chain keys from the result.
    ///
    /// Outside `HandshakeSent` this is a `StateViolation` and the session is
    /// left as it is. A reply whose signature does not verify is refused as
    /// `InvalidSignature`, and one whose ciphertext cannot be decapsulated
    /// for its length as `Other`; both end the session.
    pub fn complete_handshake(&mut self, msg: HandshakeMessage) -> (res: Result<(), PQError>)
        requires
            old(self).wf(),
        ensures
            final(self).wf(),
            (res, final(self)@) == complete_outcome(old(self)@, msg@),
    {
        if self.state != PQState::HandshakeSent {
            return Err(PQError::StateViolation);
        }
        if !msg.is_authentic() {
            self.fail();
            return Err(PQError::InvalidSignature);
        }
        let secret = match self.kem.decaps(&msg.ciphertext, &self.sk) {
            Ok(s) => s,
            Err(_) => {
                self.fail();
                return Err(PQError::Other);
            },
        };
        self.establish(Role::Initiator, &secret)
    }

    /// Seals `plaintext` into the next frame and advances the send counter.
    ///
    /// Before the session is established this is a `StateViolation`; a
    /// plaintext longer than 2^36 bytes is refused as `Other`. Either way the
    /// session is left as it is. The frame that comes back carries the send
    /// counter and opens to the plaintext under the same key, for every
    /// receiver that expects that counter or an earlier one.
    pub fn encrypt(&mut self, plaintext: &[u8]) -> (res: Result<Vec<u8>, PQError>)
        requires
            old(self).wf(),
        ensures
            final(self).wf(),
            (bytes_result(res), final(self)@) == encrypt_outcome(old(self)@, plaintext@),
            res matches Ok(frame) ==> forall|receiver: SessionView|
                receiver.state == PQState::Established && receiver.rx_key == old(self)@.tx_key
                    && receiver.recv_counter <= old(self)@.send_counter ==> (
                #[trigger] decrypt_outcome(receiver, frame@)).0 == Ok::<Seq<u8>, PQError>(
                    plaintext@,
                ),
    {
        if self.state != PQState::Established {
            return Err(PQError::StateViolation);
        }
        match seal(&self.keys.tx_key, self.send_counter, plaintext) {
            Ok(frame) => {
                self.send_counter = advance(self.send_counter);
                Ok(frame)
            },
            Err(e) => Err(e),
        }
    }

    /// Opens a frame and, on success, moves the expected counter past the
    /// one the frame carries.
    ///
    /// Before the session is established this is a `StateViolation`. A frame
    /// shorter than eight bytes or one that does not authenticate is refused
    /// as `InvalidCiphertext`, one whose counter lies below the expected one
    /// as `ReplayRejected`. Every refusal leaves the session as it is.
    pub fn decrypt(&mut self, ciphertext: &[u8]) -> (res: Result<Vec<u8>, PQError>)
        requires
            old(self).wf(),
        ensures
            final(self).wf(),
            (bytes_result(res), final(self)@) == decrypt_outcome(old(self)@, ciphertext@),
    {
        if self.state != PQState::Established {
            return Err(PQError::StateViolation);
        }
        match open(&self.keys.rx_key, self.recv_counter, ciphertext) {
            Ok((plaintext, next)) => {
                self.recv_counter = next;
                Ok(plaintext)
            },
            Err(e) => Err(e),
        }
    }
}

/// The two roles' chain keys cross-match: what one side derives for sending
/// from a secret is what the other side derives for receiving from it.
pub proof fn lemma_chain_keys_cross_match(secret: Seq<u8>)
    ensures
        chain_keys(Role::Initiator, secret).tx_key == chain_keys(Role::Responder, secret).rx_key,
        chain_keys(Role::Initiator, secret).rx_key == chain_keys(Role::Responder, secret).tx_key,
{
}

/// Handshake symmetry. Let A send an offer, B answer it having encapsulated
/// `secret`, and A complete on B's reply. Where decapsulating the reply's
/// ciphertext with A's exchange secret recovers `secret`, both sessions end
/// established, and each sends under the key the other receives under.
pub proof fn lemma_handshake_symmetry(
    a_init: SessionView,
    a_sent: SessionView,
    offer: HandshakeMessageView,
    b_init: SessionView,
    secret: Seq<u8>,
    b_done: SessionView,
    reply: HandshakeMessageView,
    a_done: SessionView,
)
    requires
        initiated(a_init, a_sent, offer),
        responded(b_init, offer, secret, b_done, reply),
        completed(a_sent, reply, a_done),
        kyber512_decapsulated(reply.ciphertext, a_sent.kem_sk) == secret,
    ensures
        a_done.state == PQState::Established,
        b_done.state == PQState::Established,
        a_done.tx_key == b_done.rx_key,
        a_done.rx_key == b_done.tx_key,
{
}

/// Tamper rejection for the signed region. A message whose signature covers
/// its exchange key stops being authentic when that key is replaced by any
/// other bytes, whatever signing key it then carries.
pub proof fn lemma_tampered_exchange_key_rejected(
    genuine: HandshakeMessageView,
    tampered: HandshakeMessageView,
)
    requires
        message_authentic(genuine),
        tampered.signature == genuine.signature,
        tampered.kem_pk != genuine.kem_pk,
    ensures
        !message_authentic(tampered),
{
}

/// State guards. Before a session is established, sealing and opening are
/// state violations that leave it untouched, and so is completing a
/// handshake that was never started.
pub proof fn lemma_state_guards(
    s: SessionView,
    plaintext: Seq<u8>,
    frame: Seq<u8>,
    reply: HandshakeMessageView,
)
    ensures
        s.state != PQState::Established ==> encrypt_outcome(s, plaintext) == (
            Err::<Seq<u8>, PQError>(PQError::StateViolation),
            s,
        ),
        s.state != PQState::Established ==> decrypt_outcome(s, frame) == (
            Err::<Seq<u8>, PQError>(PQError::StateViolation),
            s,
        ),
        s.state == PQState::Init ==> complete_outcome(s, reply) == (
            Err::<(), PQError>(PQError::StateViolation),
            s,
        ),
{
}

/// A failed session stays failed: answering an offer, completing a
/// handshake, sealing and opening are all state violations on it and leave
/// it as it is.
pub proof fn lemma_failed_is_terminal(
    s: SessionView,
    message: HandshakeMessageView,
    bytes: Seq<u8>,
)
    requires
        s.state == PQState::Failed,
    ensures
        process_refusal(s, message) == Some(PQError::StateViolation),
        after_refusal(s, PQError::StateViolation) == s,
        complete_outcome(s, message) == (Err::<(), PQError>(PQError::StateViolation), s),
        encrypt_outcome(s, bytes) == (Err::<Seq<u8>, PQError>(PQError::StateViolation), s),
        decrypt_outcome(s, bytes) == (Err::<Seq<u8>, PQError>(PQError::StateViolation), s),
{
}

/// The session after sealing `plaintexts` one after the other.
pub open spec fn after_sending(s: SessionView, plaintexts: Seq<Seq<u8>>) -> SessionView
    decreases plaintexts.len(),
{
    if plaintexts.len() == 0 {
        s
    } else {
        encrypt_outcome(after_sending(s, plaintexts.drop_last()), plaintexts.last()).1
    }
}

/// Sealing a run of plaintexts moves the send counter forward by their
/// number and changes nothing else.
pub proof fn lemma_after_sending(s: SessionView, plaintexts: Seq<Seq<u8>>)
    requires
        s.state == PQState::Established,
        s.send_counter + plaintexts.len() <= u64::MAX,
        forall|i: int|
            0 <= i < plaintexts.len() ==> (#[trigger] plaintexts[i]).len()
                <= AEAD_MAX_PLAINTEXT_BYTES,
    ensures
        after_sending(s, plaintexts) == (SessionView {
            send_counter: (s.send_counter + plaintexts.len()) as u64,
            ..s
        }),
    decreases plaintexts.len(),
{
    if plaintexts.len() > 0 {
        lemma_after_sending(s, plaintexts.drop_last());
    }
}

/// Monotonic sequencing. Of plaintexts sealed one after the other, the
/// `n`-th is sealed into a frame whose embedded counter lies `n` above the
/// counter the session started from: a freshly established session, which
/// starts from zero, sends frames numbered 0, 1, 2, ...
pub proof fn lemma_frames_count_up(s: SessionView, plaintexts: Seq<Seq<u8>>, n: int)
    requires
        s.state == PQState::Established,
        s.send_counter + plaintexts.len() <= u64::MAX,
        forall|i: int|
            0 <= i < plaintexts.len() ==> (#[trigger] plaintexts[i]).len()
                <= AEAD_MAX_PLAINTEXT_BYTES,
        0 <= n < plaintexts.len(),
    ensures
        encrypt_outcome(after_sending(s, plaintexts.take(n)), plaintexts[n]).0 matches Ok(frame)
            && frame.len() >= COUNTER_BYTES && frame_counter(frame) == s.send_counter + n,
{
    let sent = plaintexts.take(n);
    assert forall|i: int| 0 <= i < sent.len() implies (#[trigger] sent[i]).len()
        <= AEAD_MAX_PLAINTEXT_BYTES by {
        assert(sent[i] == plaintexts[i]);
    }
    lemma_after_sending(s, sent);
    let before = after_sending(s, sent);
    lemma_framed_parts(
        before.send_counter,
        aes256gcm_sealed(before.tx_key, nonce_of(before.send_counter), plaintexts[n]),
    );
}

/// Round trip through the framing. Where the cipher opens what it sealed
/// for this key, counter and plaintext, a receiver that shares the sender's
/// key and expects the sender's counter or an earlier one recovers the
/// plaintext from the frame the sender produced.
pub proof fn lemma_round_trip(sender: SessionView, receiver: SessionView, plaintext: Seq<u8>)
    requires
        sender.state == PQState::Established,
        receiver.state == PQState::Established,
        receiver.rx_key == sender.tx_key,
        receiver.recv_counter <= sender.send_counter,
        plaintext.len() <= AEAD_MAX_PLAINTEXT_BYTES,
        aes256gcm_opened(
            sender.tx_key,
            nonce_of(sender.send_counter),
            aes256gcm_sealed(sender.tx_key, nonce_of(sender.send_counter), plaintext),
        ) == Some(plaintext),
    ensures
        encrypt_outcome(sender, plaintext).0 matches Ok(frame) && decrypt_outcome(
            receiver,
            frame,
        ).0 == Ok::<Seq<u8>, PQError>(plaintext),
{
    lemma_framed_parts(
        sender.send_counter,
        aes256gcm_sealed(sender.tx_key, nonce_of(sender.send_counter), plaintext),
    );
}

/// Replay rejection. A frame that a session accepted is refused as a replay
/// when it is presented again, and the refusal leaves the session as it was.
/// The one frame for which this fails is the one that carries the last
/// counter, after which the expected counter wraps to zero.
pub proof fn lemma_replay_rejected_by_session(receiver: SessionView, frame: Seq<u8>)
    requires
        decrypt_outcome(receiver, frame).0 is Ok,
        frame_counter(frame) < u64::MAX,
    ensures
        decrypt_outcome(decrypt_outcome(receiver, frame).1, frame) == (
            Err::<Seq<u8>, PQError>(PQError::ReplayRejected),
            decrypt_outcome(receiver, frame).1,
        ),
{
}

} // verus!
