pub mod ntt;
