pub mod kem;
pub mod kyber;

pub use kem::Kem;
pub use kyber::Kyber512;
