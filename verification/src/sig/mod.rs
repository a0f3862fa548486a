pub mod dilithium;
