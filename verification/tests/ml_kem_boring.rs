use openssl::error::ErrorStack;
use openssl::mlkem::{
    MLKEM1024_PRIVATE_KEY_STORAGE_BYTES, MLKEM768_PRIVATE_KEY_STORAGE_BYTES, MLKEM1024_private_key,
    MLKEM768_private_key, MLKEM_SEED_BYTES, MLKEM_SHARED_SECRET_BYTES,
};
use openssl::pkey::{Private, Public};
use openssl::pkey_ml_kem_boring::{MlKemPrivateKey, PKeyMlKemParams, Variant};

fn private_key_768(fill: u8) -> MlKemPrivateKey {
    MlKemPrivateKey::MlKem768(MLKEM768_private_key { opaque: [fill; MLKEM768_PRIVATE_KEY_STORAGE_BYTES] })
}

fn private_key_1024(fill: u8) -> MlKemPrivateKey {
    MlKemPrivateKey::MlKem1024(MLKEM1024_private_key { opaque: [fill; MLKEM1024_PRIVATE_KEY_STORAGE_BYTES] })
}

#[test]
fn kem_variant_names() {
    assert_eq!(Variant::MlKem768.as_str(), "ML-KEM-768");
    assert_eq!(Variant::MlKem1024.as_str(), "ML-KEM-1024");
    assert_ne!(Variant::MlKem768.as_str(), Variant::MlKem1024.as_str());
}

#[test]
fn kem_variant_sizes() {
    assert_eq!(Variant::MlKem768.public_key_bytes(), 1184);
    assert_eq!(Variant::MlKem1024.public_key_bytes(), 1568);
    assert_eq!(Variant::MlKem768.ciphertext_bytes(), 1088);
    assert_eq!(Variant::MlKem1024.ciphertext_bytes(), 1568);
    assert_eq!(MLKEM768_PRIVATE_KEY_STORAGE_BYTES, 7776);
    assert_eq!(MLKEM1024_PRIVATE_KEY_STORAGE_BYTES, 12384);
    assert_eq!(MLKEM_SEED_BYTES, 64);
    assert_eq!(MLKEM_SHARED_SECRET_BYTES, 32);
}

#[test]
fn kem_from_public_key_reads_back() {
    let bytes: Vec<u8> = (0..1184u32).map(|i| (i % 256) as u8).collect();
    let key = PKeyMlKemParams::<Public>::from_public_key(Variant::MlKem768, &bytes).ok().unwrap();
    assert_eq!(key.public_key().ok().unwrap(), bytes.as_slice());
    assert_eq!(key.variant(), Variant::MlKem768);
}

#[test]
fn kem_from_public_key_wrong_length() {
    let bytes = vec![0u8; 1184];
    let r = PKeyMlKemParams::<Public>::from_public_key(Variant::MlKem1024, &bytes);
    assert_eq!(r.err(), Some(ErrorStack::InvalidLength));
    let r = PKeyMlKemParams::<Public>::from_public_key(Variant::MlKem768, &bytes[..1183]);
    assert_eq!(r.err(), Some(ErrorStack::InvalidLength));
}

#[test]
fn kem_encapsulate_is_refused() {
    let key = PKeyMlKemParams::<Public>::from_public_key(Variant::MlKem1024, &[3u8; 1568]).ok().unwrap();
    assert_eq!(key.encapsulate(), Err(ErrorStack::Unsupported));
}

#[test]
fn kem_generate_keeps_seed_and_public_key() {
    let public_key = vec![4u8; 1568];
    let seed = [0x42u8; 64];
    let key = PKeyMlKemParams::<Private>::generate(Variant::MlKem1024, public_key.clone(), seed, private_key_1024(2))
        .ok()
        .unwrap();
    assert_eq!(key.private_key_seed().ok().unwrap(), &seed[..]);
    assert_eq!(key.public_key().ok().unwrap(), public_key.as_slice());
}

#[test]
fn kem_seed_array_checks_length() {
    let seed: Vec<u8> = (0..64u8).collect();
    assert_eq!(&PKeyMlKemParams::<Private>::seed_array(&seed).unwrap()[..], seed.as_slice());
    assert_eq!(PKeyMlKemParams::<Private>::seed_array(&seed[..32]), Err(ErrorStack::InvalidLength));
}

#[test]
fn kem_from_seed_round_trip_and_refusal() {
    let seed: Vec<u8> = (0..64u8).rev().collect();
    let key = PKeyMlKemParams::<Private>::from_seed(Variant::MlKem768, &seed, private_key_768(0), vec![1u8; 1184])
        .ok()
        .unwrap();
    assert_eq!(key.private_key_seed().ok().unwrap(), seed.as_slice());
    assert_eq!(key.public_key().ok().unwrap(), &[1u8; 1184][..]);

    let r = PKeyMlKemParams::<Private>::from_seed(Variant::MlKem768, &seed[..63], private_key_768(0), vec![1u8; 1184]);
    assert_eq!(r.err(), Some(ErrorStack::InvalidLength));
}

#[test]
fn kem_decapsulate_request() {
    let key = PKeyMlKemParams::<Private>::generate(Variant::MlKem768, vec![0u8; 1184], [1u8; 64], private_key_768(0x5a))
        .ok()
        .unwrap();
    let ciphertext = vec![9u8; 1088];
    let req = key.decapsulate(&ciphertext).ok().unwrap();
    assert_eq!(req.ciphertext, ciphertext.as_slice());
    assert_eq!(req.shared_secret, vec![0u8; 32]);
    match req.private_key {
        MlKemPrivateKey::MlKem768(k) => assert!(k.opaque.iter().all(|b| *b == 0x5a)),
        _ => panic!("wrong private key variant"),
    }
}

#[test]
fn kem_keygen_buffers_are_sized_and_zeroed() {
    let (public_key, seed) = PKeyMlKemParams::<Private>::keygen_buffers(Variant::MlKem768);
    assert_eq!(public_key, vec![0u8; 1184]);
    assert_eq!(seed, [0u8; 64]);
    let (public_key, _) = PKeyMlKemParams::<Private>::keygen_buffers(Variant::MlKem1024);
    assert_eq!(public_key.len(), 1568);
}
