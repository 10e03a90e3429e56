//! Sizes and storage of the ML-DSA primitive's keys.
//!
//! The private and public key structures of the C library are fixed-size
//! blobs whose layout only the library reads; here they are byte arrays of
//! the same size.

use vstd::prelude::*;

verus! {

/// Length of the seed from which an ML-DSA key pair is expanded.
pub const MLDSA_SEED_BYTES: usize = 32;
/// Length of the message representative `mu`.
pub const MLDSA_MU_BYTES: usize = 64;

/// Length of an encoded ML-DSA-44 public key.
pub const MLDSA44_PUBLIC_KEY_BYTES: usize = 1312;
/// Length of an ML-DSA-44 signature.
pub const MLDSA44_SIGNATURE_BYTES: usize = 2420;
/// Size of the library's ML-DSA-44 private key structure:
/// `(32 + 64 + 256 * 4 * 4) + 32 + 256 * 4 * (4 + 4 + 4)` bytes.
pub const MLDSA44_PRIVATE_KEY_STORAGE_BYTES: usize = 16512;
/// Size of the library's ML-DSA-44 public key structure:
/// `32 + 64 + 256 * 4 * 4` bytes.
pub const MLDSA44_PUBLIC_KEY_STORAGE_BYTES: usize = 4192;

/// Length of an encoded ML-DSA-65 public key.
pub const MLDSA65_PUBLIC_KEY_BYTES: usize = 1952;
/// Length of an ML-DSA-65 signature.
pub const MLDSA65_SIGNATURE_BYTES: usize = 3309;
/// Size of the library's ML-DSA-65 private key structure:
/// `(32 + 64 + 256 * 4 * 6) + 32 + 256 * 4 * (5 + 6 + 6)` bytes.
pub const MLDSA65_PRIVATE_KEY_STORAGE_BYTES: usize = 23680;
/// Size of the library's ML-DSA-65 public key structure:
/// `32 + 64 + 256 * 4 * 6` bytes.
pub const MLDSA65_PUBLIC_KEY_STORAGE_BYTES: usize = 6240;

/// Length of an encoded ML-DSA-87 public key.
pub const MLDSA87_PUBLIC_KEY_BYTES: usize = 2592;
/// Length of an ML-DSA-87 signature.
pub const MLDSA87_SIGNATURE_BYTES: usize = 4627;
/// Size of the library's ML-DSA-87 private key structure:
/// `(32 + 64 + 256 * 4 * 8) + 32 + 256 * 4 * (7 + 8 + 8)` bytes.
pub const MLDSA87_PRIVATE_KEY_STORAGE_BYTES: usize = 31872;
/// Size of the library's ML-DSA-87 public key structure:
/// `32 + 64 + 256 * 4 * 8` bytes.
pub const MLDSA87_PUBLIC_KEY_STORAGE_BYTES: usize = 8288;

/// An expanded ML-DSA-44 private key, as the library lays it out.
#[allow(non_camel_case_types)]
pub struct MLDSA44_private_key {
    pub opaque: [u8; MLDSA44_PRIVATE_KEY_STORAGE_BYTES],
}

/// An ML-DSA-44 public key, as the library lays it out.
#[allow(non_camel_case_types)]
pub struct MLDSA44_public_key {
    pub opaque: [u8; MLDSA44_PUBLIC_KEY_STORAGE_BYTES],
}

/// An expanded ML-DSA-65 private key, as the library lays it out.
#[allow(non_camel_case_types)]
pub struct MLDSA65_private_key {
    pub opaque: [u8; MLDSA65_PRIVATE_KEY_STORAGE_BYTES],
}

/// An ML-DSA-65 public key, as the library lays it out.
#[allow(non_camel_case_types)]
pub struct MLDSA65_public_key {
    pub opaque: [u8; MLDSA65_PUBLIC_KEY_STORAGE_BYTES],
}

/// An expanded ML-DSA-87 private key, as the library lays it out.
#[allow(non_camel_case_types)]
pub struct MLDSA87_private_key {
    pub opaque: [u8; MLDSA87_PRIVATE_KEY_STORAGE_BYTES],
}

/// An ML-DSA-87 public key, as the library lays it out.
#[allow(non_camel_case_types)]
pub struct MLDSA87_public_key {
    pub opaque: [u8; MLDSA87_PUBLIC_KEY_STORAGE_BYTES],
}

} // verus!
