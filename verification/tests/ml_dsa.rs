use openssl::error::ErrorStack;
use openssl::mldsa::{
    MLDSA44_PRIVATE_KEY_STORAGE_BYTES, MLDSA65_PRIVATE_KEY_STORAGE_BYTES,
    MLDSA87_PRIVATE_KEY_STORAGE_BYTES, MLDSA44_private_key, MLDSA65_private_key,
    MLDSA87_private_key, MLDSA_SEED_BYTES,
};
use openssl::pkey::{Private, Public};
use openssl::pkey_ml_dsa_boring::{MlDsaPrivateKey, PKeyMlDsaParams, Variant};

fn private_key_44(fill: u8) -> MlDsaPrivateKey {
    MlDsaPrivateKey::MlDsa44(MLDSA44_private_key { opaque: [fill; MLDSA44_PRIVATE_KEY_STORAGE_BYTES] })
}

fn private_key_65(fill: u8) -> MlDsaPrivateKey {
    MlDsaPrivateKey::MlDsa65(MLDSA65_private_key { opaque: [fill; MLDSA65_PRIVATE_KEY_STORAGE_BYTES] })
}

fn private_key_87(fill: u8) -> MlDsaPrivateKey {
    MlDsaPrivateKey::MlDsa87(MLDSA87_private_key { opaque: [fill; MLDSA87_PRIVATE_KEY_STORAGE_BYTES] })
}

#[test]
fn variant_names() {
    assert_eq!(Variant::MlDsa44.as_str(), "ML-DSA-44");
    assert_eq!(Variant::MlDsa65.as_str(), "ML-DSA-65");
    assert_eq!(Variant::MlDsa87.as_str(), "ML-DSA-87");
}

#[test]
fn variant_names_are_distinct() {
    let all = [Variant::MlDsa44, Variant::MlDsa65, Variant::MlDsa87];
    for a in all.iter() {
        for b in all.iter() {
            assert_eq!(a == b, a.as_str() == b.as_str());
        }
    }
}

#[test]
fn variant_sizes() {
    assert_eq!(Variant::MlDsa44.public_key_bytes(), 1312);
    assert_eq!(Variant::MlDsa65.public_key_bytes(), 1952);
    assert_eq!(Variant::MlDsa87.public_key_bytes(), 2592);
    assert_eq!(Variant::MlDsa44.signature_bytes(), 2420);
    assert_eq!(Variant::MlDsa65.signature_bytes(), 3309);
    assert_eq!(Variant::MlDsa87.signature_bytes(), 4627);
}

#[test]
fn storage_sizes() {
    assert_eq!(MLDSA44_PRIVATE_KEY_STORAGE_BYTES, 16512);
    assert_eq!(MLDSA65_PRIVATE_KEY_STORAGE_BYTES, 23680);
    assert_eq!(MLDSA87_PRIVATE_KEY_STORAGE_BYTES, 31872);
    assert_eq!(MLDSA_SEED_BYTES, 32);
}

#[test]
fn from_public_key_reads_back() {
    let bytes: Vec<u8> = (0..1952u32).map(|i| (i % 251) as u8).collect();
    let key = PKeyMlDsaParams::<Public>::from_public_key(Variant::MlDsa65, &bytes).ok().unwrap();
    assert_eq!(key.public_key().ok().unwrap(), bytes.as_slice());
    assert_eq!(key.variant(), Variant::MlDsa65);
}

#[test]
fn from_public_key_wrong_length() {
    let bytes = vec![1u8; 1312];
    let r = PKeyMlDsaParams::<Public>::from_public_key(Variant::MlDsa65, &bytes);
    assert_eq!(r.err(), Some(ErrorStack::InvalidLength));
    let r = PKeyMlDsaParams::<Public>::from_public_key(Variant::MlDsa44, &bytes[..1311]);
    assert_eq!(r.err(), Some(ErrorStack::InvalidLength));
    let r = PKeyMlDsaParams::<Public>::from_public_key(Variant::MlDsa87, &[]);
    assert_eq!(r.err(), Some(ErrorStack::InvalidLength));
}

#[test]
fn verify_is_refused() {
    let bytes = vec![1u8; 2592];
    let key = PKeyMlDsaParams::<Public>::from_public_key(Variant::MlDsa87, &bytes).ok().unwrap();
    assert_eq!(key.verify(b"message", &[0u8; 4627], None), Err(ErrorStack::Unsupported));
    assert_eq!(key.verify(b"message", &[], Some(b"ctx")), Err(ErrorStack::Unsupported));
}

#[test]
fn generate_keeps_seed_and_public_key() {
    let public_key = vec![9u8; 1312];
    let seed = [0x42u8; 32];
    let key = PKeyMlDsaParams::<Private>::generate(Variant::MlDsa44, public_key.clone(), seed, private_key_44(3))
        .ok()
        .unwrap();
    assert_eq!(key.private_key_seed().ok().unwrap(), &seed[..]);
    assert_eq!(key.public_key().ok().unwrap(), public_key.as_slice());
    assert_eq!(key.variant(), Variant::MlDsa44);
}

#[test]
fn seed_array_checks_length() {
    let seed: Vec<u8> = (0..32u8).collect();
    let arr = PKeyMlDsaParams::<Private>::seed_array(&seed).unwrap();
    assert_eq!(&arr[..], seed.as_slice());
    assert_eq!(PKeyMlDsaParams::<Private>::seed_array(&seed[..31]), Err(ErrorStack::InvalidLength));
    assert_eq!(PKeyMlDsaParams::<Private>::seed_array(&[0u8; 33]), Err(ErrorStack::InvalidLength));
    assert_eq!(PKeyMlDsaParams::<Private>::seed_array(&[]), Err(ErrorStack::InvalidLength));
}

#[test]
fn from_seed_round_trip() {
    let seed: Vec<u8> = (100..132u8).collect();
    let public_key = vec![5u8; 2592];
    let key = PKeyMlDsaParams::<Private>::from_seed(Variant::MlDsa87, &seed, private_key_87(1), public_key.clone())
        .ok()
        .unwrap();
    assert_eq!(key.private_key_seed().ok().unwrap(), seed.as_slice());
    assert_eq!(key.public_key().ok().unwrap(), public_key.as_slice());
}

#[test]
fn from_seed_wrong_length() {
    let r = PKeyMlDsaParams::<Private>::from_seed(Variant::MlDsa65, &[0u8; 64], private_key_65(0), vec![0u8; 1952]);
    assert_eq!(r.err(), Some(ErrorStack::InvalidLength));
}

#[test]
fn sign_request_selects_key_and_sizes_buffer() {
    let key = PKeyMlDsaParams::<Private>::generate(Variant::MlDsa65, vec![0u8; 1952], [7u8; 32], private_key_65(0xab))
        .ok()
        .unwrap();
    let msg = b"Hello, post-quantum world!";
    let ctx = b"example.com/api/v1";
    let req = key.sign(msg, Some(ctx)).ok().unwrap();
    assert_eq!(req.message, &msg[..]);
    assert_eq!(req.context, Some(&ctx[..]));
    assert_eq!(req.signature.len(), 3309);
    assert!(req.signature.iter().all(|b| *b == 0));
    match req.private_key {
        MlDsaPrivateKey::MlDsa65(k) => assert!(k.opaque.iter().all(|b| *b == 0xab)),
        _ => panic!("wrong private key variant"),
    }

    let req = key.sign(msg, None).ok().unwrap();
    assert_eq!(req.context, None);
}

#[test]
fn keygen_buffers_are_sized_and_zeroed() {
    let (public_key, seed) = PKeyMlDsaParams::<Private>::keygen_buffers(Variant::MlDsa87);
    assert_eq!(public_key, vec![0u8; 2592]);
    assert_eq!(seed, [0u8; 32]);
    let (public_key, _) = PKeyMlDsaParams::<Private>::keygen_buffers(Variant::MlDsa44);
    assert_eq!(public_key.len(), 1312);
}
