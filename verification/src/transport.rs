//! The framed transport: a 64-bit little-endian sequence counter followed by
//! the AEAD output for the plaintext, sealed under a nonce built from that
//! counter.
//!
//! Counters wrap to zero after `u64::MAX`. A receiver accepts any counter at
//! or above the one it expects, so lost frames do not block the channel, and
//! then expects the counter after the one it received.

use crate::aead::{
    aes256gcm_open,
    aes256gcm_opened,
    aes256gcm_seal,
    aes256gcm_sealed,
    AEAD_MAX_PLAINTEXT_BYTES,
    AEAD_NONCE_BYTES,
};
use crate::protocol::PQError;
use vstd::bytes::{
    lemma_auto_spec_u64_to_from_le_bytes,
    spec_u64_from_le_bytes,
    spec_u64_to_le_bytes,
    u64_from_le_bytes,
    u64_to_le_bytes,
};
use vstd::prelude::*;
use vstd::slice::slice_subrange;

verus! {

/// Width of the counter field that starts every frame.
pub const COUNTER_BYTES: usize = 8;

/// The counter that follows `counter`, wrapping to zero at the end.
pub open spec fn next_counter(counter: u64) -> u64 {
    if counter == u64::MAX {
        0
    } else {
        (counter + 1) as u64
    }
}

/// The 96-bit nonce for a counter: its eight little-endian bytes, then four
/// zero bytes.
pub open spec fn nonce_of(counter: u64) -> Seq<u8> {
    spec_u64_to_le_bytes(counter) + seq![0u8, 0u8, 0u8, 0u8]
}

/// The frame that carries `body` under `counter`.
pub open spec fn framed(counter: u64, body: Seq<u8>) -> Seq<u8> {
    spec_u64_to_le_bytes(counter) + body
}

/// The counter embedded in a frame of at least eight bytes.
pub open spec fn frame_counter(frame: Seq<u8>) -> u64 {
    spec_u64_from_le_bytes(frame.subrange(0, COUNTER_BYTES as int))
}

/// What follows the counter in a frame of at least eight bytes.
pub open spec fn frame_body(frame: Seq<u8>) -> Seq<u8> {
    frame.subrange(COUNTER_BYTES as int, frame.len() as int)
}

/// What a receiver that expects `expected` makes of a frame before it
/// decrypts: a short frame is malformed, a counter below `expected` is a
/// replay, anything else yields the counter and the body.
pub open spec fn parsed_frame(frame: Seq<u8>, expected: u64) -> Result<(u64, Seq<u8>), PQError> {
    if frame.len() < COUNTER_BYTES {
        Err(PQError::InvalidCiphertext)
    } else if frame_counter(frame) < expected {
        Err(PQError::ReplayRejected)
    } else {
        Ok((frame_counter(frame), frame_body(frame)))
    }
}

/// The frame for `plaintext` sent under `key` at `counter`; none for a
/// plaintext too long to seal.
pub open spec fn sealed_frame(key: Seq<u8>, counter: u64, plaintext: Seq<u8>) -> Option<Seq<u8>> {
    if plaintext.len() <= AEAD_MAX_PLAINTEXT_BYTES {
        Some(framed(counter, aes256gcm_sealed(key, nonce_of(counter), plaintext)))
    } else {
        None
    }
}

/// What a receiver holding `key` and expecting `expected` makes of a frame:
/// the plaintext and the counter it expects next, or the reason the frame is
/// dropped.
pub open spec fn opened_frame(key: Seq<u8>, expected: u64, frame: Seq<u8>) -> Result<
    (Seq<u8>, u64),
    PQError,
> {
    match parsed_frame(frame, expected) {
        Err(e) => Err(e),
        Ok((counter, body)) => match aes256gcm_opened(key, nonce_of(counter), body) {
            Some(plaintext) => Ok((plaintext, next_counter(counter))),
            None => Err(PQError::InvalidCiphertext),
        },
    }
}

/// The counter after `counter`.
pub fn advance(counter: u64) -> (next: u64)
    ensures
        next == next_counter(counter),
{
    if counter == u64::MAX {
        0
    } else {
        counter + 1
    }
}

/// Builds the nonce for a counter.
pub fn frame_nonce(counter: u64) -> (nonce: Vec<u8>)
    ensures
        nonce@ == nonce_of(counter),
        nonce@.len() == AEAD_NONCE_BYTES,
{
    let mut nonce = u64_to_le_bytes(counter);
    nonce.push(0);
    nonce.push(0);
    nonce.push(0);
    nonce.push(0);
    assert(nonce@ =~= nonce_of(counter));
    nonce
}

/// Puts the counter in front of a body.
pub fn assemble_frame(counter: u64, body: &[u8]) -> (frame: Vec<u8>)
    ensures
        frame@ == framed(counter, body@),
{
    let mut frame = u64_to_le_bytes(counter);
    let mut i: usize = 0;
    while i < body.len()
        invariant
            i <= body@.len(),
            frame@ == spec_u64_to_le_bytes(counter) + body@.subrange(0, i as int),
        decreases body@.len() - i,
    {
        frame.push(body[i]);
        i += 1;
        assert(frame@ =~= spec_u64_to_le_bytes(counter) + body@.subrange(0, i as int));
    }
    assert(body@.subrange(0, i as int) =~= body@);
    frame
}

/// Splits a frame into counter and body, refusing a frame shorter than the
/// counter field as `InvalidCiphertext` and a counter below `expected` as
/// `ReplayRejected`.
pub fn parse_frame(frame: &[u8], expected: u64) -> (res: Result<(u64, &[u8]), PQError>)
    ensures
        match parsed_frame(frame@, expected) {
            Ok((counter, body)) => res matches Ok((c, b)) && c == counter && b@ == body,
            Err(e) => res matches Err(err) && err == e,
        },
{
    if frame.len() < COUNTER_BYTES {
        return Err(PQError::InvalidCiphertext);
    }
    let counter = u64_from_le_bytes(slice_subrange(frame, 0, COUNTER_BYTES));
    if counter < expected {
        return Err(PQError::ReplayRejected);
    }
    Ok((counter, slice_subrange(frame, COUNTER_BYTES, frame.len())))
}

/// Seals `plaintext` under `key` at `counter`.
///
/// A plaintext longer than 2^36 bytes is refused as `Other`. The frame that
/// comes back opens, under the same key and for every expected counter up to
/// its own, to the plaintext again.
pub fn seal(key: &[u8; 32], counter: u64, plaintext: &[u8]) -> (res: Result<Vec<u8>, PQError>)
    ensures
        match sealed_frame(key@, counter, plaintext@) {
            Some(frame) => res matches Ok(out) && out@ == frame,
            None => res matches Err(e) && e == PQError::Other,
        },
        res matches Ok(out) ==> out@.len() >= COUNTER_BYTES && frame_counter(out@) == counter,
        res matches Ok(out) ==> forall|expected: u64|
            expected <= counter ==> #[trigger] opened_frame(key@, expected, out@) == Ok::<
                (Seq<u8>, u64),
                PQError,
            >((plaintext@, next_counter(counter))),
{
    let nonce = frame_nonce(counter);
    match aes256gcm_seal(key, nonce.as_slice(), plaintext) {
        Ok(sealed) => {
            let out = assemble_frame(counter, sealed.as_slice());
            proof {
                lemma_framed_parts(counter, sealed@);
            }
            Ok(out)
        },
        Err(_) => Err(PQError::Other),
    }
}

/// Opens a frame under `key` for a receiver that expects `expected`, and
/// returns the plaintext with the counter to expect next.
pub fn open(key: &[u8; 32], expected: u64, frame: &[u8]) -> (res: Result<(Vec<u8>, u64), PQError>)
    ensures
        match opened_frame(key@, expected, frame@) {
            Ok((plaintext, next)) => res matches Ok((p, n)) && p@ == plaintext && n == next,
            Err(e) => res matches Err(err) && err == e,
        },
{
    let (counter, body) = match parse_frame(frame, expected) {
        Ok(parts) => parts,
        Err(e) => {
            return Err(e);
        },
    };
    let nonce = frame_nonce(counter);
    match aes256gcm_open(key, nonce.as_slice(), body) {
        Ok(plaintext) => Ok((plaintext, advance(counter))),
        Err(_) => Err(PQError::InvalidCiphertext),
    }
}

/// A frame gives back the counter and the body it was assembled from.
pub proof fn lemma_framed_parts(counter: u64, body: Seq<u8>)
    ensures
        framed(counter, body).len() == COUNTER_BYTES + body.len(),
        frame_counter(framed(counter, body)) == counter,
        frame_body(framed(counter, body)) == body,
{
    lemma_auto_spec_u64_to_from_le_bytes();
    let le = spec_u64_to_le_bytes(counter);
    assert(framed(counter, body).subrange(0, COUNTER_BYTES as int) =~= le);
    assert(frame_body(framed(counter, body)) =~= body);
}

/// The embedded counter of the `n`-th frame sent on a fresh channel is `n`:
/// frames carry 0, 1, 2, ... in the order they are sealed.
pub open spec fn counter_after(sent: nat) -> u64
    decreases sent,
{
    if sent == 0 {
        0
    } else {
        next_counter(counter_after((sent - 1) as nat))
    }
}

/// Sealing advances the counter by one each time, so after `sent` frames on
/// a fresh channel the next frame carries `sent`, and counters grow strictly
/// until the counter space is used up.
pub proof fn lemma_counters_increase(sent: nat)
    requires
        sent <= u64::MAX,
    ensures
        counter_after(sent) == sent,
        sent > 0 ==> counter_after((sent - 1) as nat) < counter_after(sent),
    decreases sent,
{
    if sent > 0 {
        lemma_counters_increase((sent - 1) as nat);
    }
}

/// A frame that was accepted is rejected as a replay when it is presented
/// again, as long as its counter is not the last one before the wrap.
pub proof fn lemma_replay_rejected(key: Seq<u8>, expected: u64, frame: Seq<u8>)
    requires
        opened_frame(key, expected, frame) is Ok,
        frame_counter(frame) < u64::MAX,
    ensures
        opened_frame(key, opened_frame(key, expected, frame)->Ok_0.1, frame) == Err::<
            (Seq<u8>, u64),
            PQError,
        >(PQError::ReplayRejected),
{
}

} // verus!
