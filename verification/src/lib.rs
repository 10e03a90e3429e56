//! Post-quantum key types over the BoringSSL-style ML-KEM and ML-DSA
//! primitives: parameter sets, key-size tables, key containers and the
//! decisions made around each primitive call.
//!
//! The lattice arithmetic itself lives in the C library. The functions here
//! take what a primitive produced (or describe what it must be asked) and
//! decide the rest: which inputs are refused, which error comes back, and
//! what a key container holds afterwards.

pub mod error;
pub mod mldsa;
pub mod pkey;
pub mod pkey_ml_dsa_boring;
pub mod mlkem;
pub mod pkey_ml_kem_boring;
pub mod pkey_ml_kem;

pub use error::{cvt, ErrorStack};
