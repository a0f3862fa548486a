//! Post-quantum secure channel: an authenticated key-encapsulation handshake
//! followed by a counter-framed AEAD transport.

pub mod aead;
pub mod entropy;
pub mod kdf;
pub mod kem;
pub mod math;
pub mod protocol;
pub mod sig;
pub mod transport;
pub mod wipe;

pub use protocol::PQSession;
