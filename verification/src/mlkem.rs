//! Sizes and storage of the ML-KEM primitive's keys.
//!
//! The private and public key structures of the C library are fixed-size
//! blobs whose layout only the library reads; here they are byte arrays of
//! the same size.

use vstd::prelude::*;

verus! {

/// Length of the seed from which an ML-KEM key pair is expanded.
pub const MLKEM_SEED_BYTES: usize = 64;
/// Length of an ML-KEM shared secret.
pub const MLKEM_SHARED_SECRET_BYTES: usize = 32;

/// Length of an encoded ML-KEM-768 public key.
pub const MLKEM768_PUBLIC_KEY_BYTES: usize = 1184;
/// Length of an ML-KEM-768 ciphertext.
pub const MLKEM768_CIPHERTEXT_BYTES: usize = 1088;
/// Size of the library's ML-KEM-768 public key structure:
/// `512 * (3 + 9) + 32 + 32` bytes.
pub const MLKEM768_PUBLIC_KEY_STORAGE_BYTES: usize = 6208;
/// Size of the library's ML-KEM-768 private key structure:
/// `512 * (3 + 3 + 9) + 32 + 32 + 32` bytes.
pub const MLKEM768_PRIVATE_KEY_STORAGE_BYTES: usize = 7776;

/// Length of an encoded ML-KEM-1024 public key.
pub const MLKEM1024_PUBLIC_KEY_BYTES: usize = 1568;
/// Length of an ML-KEM-1024 ciphertext.
pub const MLKEM1024_CIPHERTEXT_BYTES: usize = 1568;
/// Size of the library's ML-KEM-1024 public key structure:
/// `512 * (4 + 16) + 32 + 32` bytes.
pub const MLKEM1024_PUBLIC_KEY_STORAGE_BYTES: usize = 10304;
/// Size of the library's ML-KEM-1024 private key structure:
/// `512 * (4 + 4 + 16) + 32 + 32 + 32` bytes.
pub const MLKEM1024_PRIVATE_KEY_STORAGE_BYTES: usize = 12384;

/// An ML-KEM-768 public key, as the library lays it out.
#[allow(non_camel_case_types)]
pub struct MLKEM768_public_key {
    pub opaque: [u8; MLKEM768_PUBLIC_KEY_STORAGE_BYTES],
}

/// An expanded ML-KEM-768 private key, as the library lays it out.
#[allow(non_camel_case_types)]
pub struct MLKEM768_private_key {
    pub opaque: [u8; MLKEM768_PRIVATE_KEY_STORAGE_BYTES],
}

/// An ML-KEM-1024 public key, as the library lays it out.
#[allow(non_camel_case_types)]
pub struct MLKEM1024_public_key {
    pub opaque: [u8; MLKEM1024_PUBLIC_KEY_STORAGE_BYTES],
}

/// An expanded ML-KEM-1024 private key, as the library lays it out.
#[allow(non_camel_case_types)]
pub struct MLKEM1024_private_key {
    pub opaque: [u8; MLKEM1024_PRIVATE_KEY_STORAGE_BYTES],
}

} // verus!
