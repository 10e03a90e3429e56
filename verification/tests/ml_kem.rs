use openssl::error::ErrorStack;
use openssl::pkey_ml_kem::{PKeyMlKemParams, Private, Variant};

#[test]
fn seed_kem_public_key_sizes() {
    assert_eq!(Variant::MlKem768.public_key_bytes(), 1184);
    assert_eq!(Variant::MlKem1024.public_key_bytes(), 1568);
}

#[test]
fn seed_kem_keygen_buffers() {
    assert_eq!(PKeyMlKemParams::<Private>::keygen_buffers(Variant::MlKem512).err(), Some(ErrorStack::Unsupported));
    let (public_key, seed) = PKeyMlKemParams::<Private>::keygen_buffers(Variant::MlKem1024).unwrap();
    assert_eq!(public_key, vec![0u8; 1568]);
    assert_eq!(seed, [0u8; 64]);
}

#[test]
fn seed_kem_generate() {
    let r = PKeyMlKemParams::<Private>::generate(Variant::MlKem512, vec![0u8; 800], [0u8; 64]);
    assert_eq!(r.err(), Some(ErrorStack::Unsupported));

    let seed = [0x42u8; 64];
    let key = PKeyMlKemParams::<Private>::generate(Variant::MlKem768, vec![6u8; 1184], seed).ok().unwrap();
    assert_eq!(key.private_key_seed().ok().unwrap(), &seed[..]);
    assert_eq!(key.public_key().ok().unwrap(), &[6u8; 1184][..]);
    assert_eq!(key.variant(), Variant::MlKem768);
}

#[test]
fn seed_kem_checked_seed_order() {
    // The parameter set is refused before the seed length is looked at.
    assert_eq!(PKeyMlKemParams::<Private>::checked_seed(Variant::MlKem512, &[0u8; 3]), Err(ErrorStack::Unsupported));
    assert_eq!(PKeyMlKemParams::<Private>::checked_seed(Variant::MlKem512, &[0u8; 64]), Err(ErrorStack::Unsupported));
    assert_eq!(PKeyMlKemParams::<Private>::checked_seed(Variant::MlKem768, &[0u8; 3]), Err(ErrorStack::InvalidLength));
    let seed: Vec<u8> = (0..64u8).collect();
    assert_eq!(&PKeyMlKemParams::<Private>::checked_seed(Variant::MlKem1024, &seed).unwrap()[..], seed.as_slice());
}

#[test]
fn seed_kem_from_seed() {
    let seed = [0x42u8; 64];
    let key = PKeyMlKemParams::<Private>::from_seed(Variant::MlKem1024, &seed, vec![8u8; 1568]).ok().unwrap();
    assert_eq!(key.private_key_seed().ok().unwrap(), &seed[..]);
    assert_eq!(key.public_key().ok().unwrap(), &[8u8; 1568][..]);

    let r = PKeyMlKemParams::<Private>::from_seed(Variant::MlKem512, &seed, vec![]);
    assert_eq!(r.err(), Some(ErrorStack::Unsupported));
    let r = PKeyMlKemParams::<Private>::from_seed(Variant::MlKem768, &seed[..10], vec![0u8; 1184]);
    assert_eq!(r.err(), Some(ErrorStack::InvalidLength));
}

#[test]
fn seed_kem_decapsulate_request() {
    let seed = [0x17u8; 64];
    let key = PKeyMlKemParams::<Private>::from_seed(Variant::MlKem768, &seed, vec![0u8; 1184]).ok().unwrap();
    let ciphertext = [3u8; 1088];
    let req = key.decapsulate(&ciphertext).ok().unwrap();
    assert_eq!(req.variant, Variant::MlKem768);
    assert_eq!(req.seed, &seed);
    assert_eq!(req.ciphertext, &ciphertext[..]);
    assert_eq!(req.shared_secret, vec![0u8; 32]);
}
