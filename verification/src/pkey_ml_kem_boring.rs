//! Module-Lattice-Based Key-Encapsulation Mechanism over BoringSSL's native
//! ML-KEM API.
//!
//! ML-KEM is a Key-Encapsulation Mechanism that is believed to be secure
//! against adversaries with quantum computers. It has been standardized by
//! NIST as FIPS 203.
//!
//! BoringSSL only supports ML-KEM-768 and ML-KEM-1024, not ML-KEM-512.
//!
//! The primitives themselves (key generation, seed expansion, public key
//! derivation, decapsulation) are calls into the C library made by the
//! caller of this module. This module holds the decisions around them.

use core::marker::PhantomData;
use vstd::prelude::*;

use crate::error::ErrorStack;
use crate::mlkem::{
    MLKEM1024_CIPHERTEXT_BYTES, MLKEM1024_PUBLIC_KEY_BYTES, MLKEM1024_private_key,
    MLKEM1024_public_key, MLKEM768_CIPHERTEXT_BYTES, MLKEM768_PUBLIC_KEY_BYTES,
    MLKEM768_private_key, MLKEM768_public_key, MLKEM_SEED_BYTES, MLKEM_SHARED_SECRET_BYTES, MLKEM768_PRIVATE_KEY_STORAGE_BYTES,
    MLKEM768_PUBLIC_KEY_STORAGE_BYTES, MLKEM1024_PRIVATE_KEY_STORAGE_BYTES,
    MLKEM1024_PUBLIC_KEY_STORAGE_BYTES,
};
use crate::pkey::{Private, Public};

verus! {

/// An ML-KEM parameter set offered by BoringSSL.
#[derive(Clone, Copy, Debug, PartialEq, Eq, Structural, Hash, PartialOrd, Ord)]
pub enum Variant {
    MlKem768,
    MlKem1024,
}

impl Variant {
    /// The parameter set's name as the standard writes it.
    pub open spec fn name(self) -> Seq<char> {
        match self {
            Variant::MlKem768 => "ML-KEM-768"@,
            Variant::MlKem1024 => "ML-KEM-1024"@,
        }
    }

    /// Length of an encoded public key of this parameter set.
    pub open spec fn public_key_size(self) -> usize {
        match self {
            Variant::MlKem768 => MLKEM768_PUBLIC_KEY_BYTES,
            Variant::MlKem1024 => MLKEM1024_PUBLIC_KEY_BYTES,
        }
    }

    /// Length of a ciphertext of this parameter set.
    pub open spec fn ciphertext_size(self) -> usize {
        match self {
            Variant::MlKem768 => MLKEM768_CIPHERTEXT_BYTES,
            Variant::MlKem1024 => MLKEM1024_CIPHERTEXT_BYTES,
        }
    }

    /// Returns the parameter set's name, such as `"ML-KEM-768"`.
    pub fn as_str(&self) -> (s: &'static str)
        ensures
            s@ == self.name(),
    {
        match self {
            Variant::MlKem768 => "ML-KEM-768",
            Variant::MlKem1024 => "ML-KEM-1024",
        }
    }

    /// Returns the length of an encoded public key of this parameter set.
    pub fn public_key_bytes(&self) -> (n: usize)
        ensures
            n == self.public_key_size(),
    {
        match self {
            Variant::MlKem768 => MLKEM768_PUBLIC_KEY_BYTES,
            Variant::MlKem1024 => MLKEM1024_PUBLIC_KEY_BYTES,
        }
    }

    /// Returns the length of a ciphertext of this parameter set.
    pub fn ciphertext_bytes(&self) -> (n: usize)
        ensures
            n == self.ciphertext_size(),
    {
        match self {
            Variant::MlKem768 => MLKEM768_CIPHERTEXT_BYTES,
            Variant::MlKem1024 => MLKEM1024_CIPHERTEXT_BYTES,
        }
    }
}

/// Private key storage for ML-KEM.
pub enum MlKemPrivateKey {
    MlKem768(MLKEM768_private_key),
    MlKem1024(MLKEM1024_private_key),
}

impl MlKemPrivateKey {
    /// The bytes of the library's structure that this key is stored in.
    pub open spec fn storage(&self) -> Seq<u8> {
        match self {
            MlKemPrivateKey::MlKem768(k) => k.opaque@,
            MlKemPrivateKey::MlKem1024(k) => k.opaque@,
        }
    }

    /// The parameter set that this private key belongs to.
    pub open spec fn parameter_set(&self) -> Variant {
        match self {
            MlKemPrivateKey::MlKem768(_) => Variant::MlKem768,
            MlKemPrivateKey::MlKem1024(_) => Variant::MlKem1024,
        }
    }

    /// Returns the parameter set that this private key belongs to.
    pub fn variant(&self) -> (v: Variant)
        ensures
            v == self.parameter_set(),
    {
        match self {
            MlKemPrivateKey::MlKem768(_) => Variant::MlKem768,
            MlKemPrivateKey::MlKem1024(_) => Variant::MlKem1024,
        }
    }
}

/// Public key storage for ML-KEM.
pub enum MlKemPublicKey {
    MlKem768(MLKEM768_public_key),
    MlKem1024(MLKEM1024_public_key),
}

impl MlKemPublicKey {
    /// The bytes of the library's structure that this key is stored in.
    pub open spec fn storage(&self) -> Seq<u8> {
        match self {
            MlKemPublicKey::MlKem768(k) => k.opaque@,
            MlKemPublicKey::MlKem1024(k) => k.opaque@,
        }
    }

    /// The parameter set that this public key belongs to.
    pub open spec fn parameter_set(&self) -> Variant {
        match self {
            MlKemPublicKey::MlKem768(_) => Variant::MlKem768,
            MlKemPublicKey::MlKem1024(_) => Variant::MlKem1024,
        }
    }

    /// Returns the parameter set that this public key belongs to.
    pub fn variant(&self) -> (v: Variant)
        ensures
            v == self.parameter_set(),
    {
        match self {
            MlKemPublicKey::MlKem768(_) => Variant::MlKem768,
            MlKemPublicKey::MlKem1024(_) => Variant::MlKem1024,
        }
    }
}

/// What an ML-KEM key container holds.
pub struct MlKemKeyState {
    pub variant: Variant,
    /// The encoded public key.
    pub public_key: Seq<u8>,
    /// The expanded private key, where the container has a private part.
    pub private_key: Option<MlKemPrivateKey>,
    /// The seed that the private key was expanded from, where there is one.
    pub seed: Option<Seq<u8>>,
}

impl MlKemKeyState {
    /// The state of a key pair: its variant, its encoded public key, and the
    /// private key expanded from `seed`.
    pub open spec fn key_pair(
        variant: Variant,
        public_key: Seq<u8>,
        seed: Seq<u8>,
        private_key: MlKemPrivateKey,
    ) -> MlKemKeyState {
        MlKemKeyState {
            variant,
            public_key,
            private_key: Some(private_key),
            seed: Some(seed),
        }
    }

    /// The state of a container that holds only a public key.
    pub open spec fn public_only(variant: Variant, public_key: Seq<u8>) -> MlKemKeyState {
        MlKemKeyState { variant, public_key, private_key: None, seed: None }
    }

    /// The shape that every container built by this module has: a public key
    /// of the variant's length, a private part of the same variant with its
    /// seed, or neither.
    pub open spec fn is_valid(self) -> bool {
        &&& self.public_key.len() == self.variant.public_key_size()
        &&& (self.private_key matches Some(k) ==> k.parameter_set() == self.variant)
        &&& (self.seed matches Some(s) ==> s.len() == MLKEM_SEED_BYTES)
        &&& (self.seed is Some <==> self.private_key is Some)
    }
}

/// An ML-KEM key container; `T` is `Private` where it may hold a private
/// part and `Public` where it holds only a public key.
pub struct PKeyMlKemParams<T> {
    variant: Variant,
    public_key_bytes: Vec<u8>,
    private_key: Option<MlKemPrivateKey>,
    seed: Option<[u8; MLKEM_SEED_BYTES]>,
    _marker: PhantomData<T>,
}

impl<T> View for PKeyMlKemParams<T> {
    type V = MlKemKeyState;

    closed spec fn view(&self) -> MlKemKeyState {
        MlKemKeyState {
            variant: self.variant,
            public_key: self.public_key_bytes@,
            private_key: self.private_key,
            seed: match self.seed {
                Some(s) => Some(s@),
                None => None,
            },
        }
    }
}

/// What the decapsulation primitive must be asked: recover the shared secret
/// of `ciphertext` under `private_key`, writing into `shared_secret`.
pub struct MlKemDecapsulationRequest<'a> {
    pub private_key: &'a MlKemPrivateKey,
    pub ciphertext: &'a [u8],
    /// The output buffer, zeroed and sized for one shared secret.
    pub shared_secret: Vec<u8>,
}

impl<T> PKeyMlKemParams<T> {
    /// Returns the variant of the key.
    pub fn variant(&self) -> (v: Variant)
        ensures
            v == self@.variant,
    {
        self.variant
    }

    /// Returns a reference to the public key.
    pub fn public_key(&self) -> (r: Result<&[u8], ErrorStack>)
        ensures
            r matches Ok(pk) && pk@ == self@.public_key,
    {
        Ok(self.public_key_bytes.as_slice())
    }
}

impl PKeyMlKemParams<Private> {
    /// Returns the private key seed.
    pub fn private_key_seed(&self) -> (r: Result<&[u8], ErrorStack>)
        ensures
            match self@.seed {
                Some(s) => r matches Ok(b) && b@ == s,
                None => r == Err::<&[u8], ErrorStack>(ErrorStack::MissingPrivateKey),
            },
    {
        match &self.seed {
            Some(s) => Ok(s.as_slice()),
            None => Err(ErrorStack::MissingPrivateKey),
        }
    }

    /// Prepares generating a key pair: zeroed buffers for the encoded public
    /// key and the seed that the key generation primitive fills.
    pub fn keygen_buffers(variant: Variant) -> (bufs: (Vec<u8>, [u8; MLKEM_SEED_BYTES]))
        ensures
            bufs.0@.len() == variant.public_key_size(),
            forall|i: int| 0 <= i < bufs.0@.len() ==> bufs.0@[i] == 0u8,
            forall|i: int| 0 <= i < MLKEM_SEED_BYTES ==> bufs.1@[i] == 0u8,
    {
        let public_key_bytes = vec![0u8; variant.public_key_bytes()];
        let seed = [0u8; MLKEM_SEED_BYTES];
        (public_key_bytes, seed)
    }

    /// Builds a key pair from what the key generation primitive produced for
    /// `variant`: the encoded public key, the random seed and the private key
    /// expanded from it.
    pub fn generate(
        variant: Variant,
        public_key: Vec<u8>,
        seed: [u8; MLKEM_SEED_BYTES],
        private_key: MlKemPrivateKey,
    ) -> (r: Result<Self, ErrorStack>)
        requires
            public_key@.len() == variant.public_key_size(),
            private_key.parameter_set() == variant,
        ensures
            r matches Ok(p) && p@ == MlKemKeyState::key_pair(variant, public_key@, seed@, private_key),
            r matches Ok(p) && p@.is_valid(),
    {
        Ok(PKeyMlKemParams {
            variant,
            public_key_bytes: public_key,
            private_key: Some(private_key),
            seed: Some(seed),
            _marker: PhantomData,
        })
    }

    /// Checks that `seed` has the length of an ML-KEM seed and copies it.
    pub fn seed_array(seed: &[u8]) -> (r: Result<[u8; MLKEM_SEED_BYTES], ErrorStack>)
        ensures
            seed@.len() == MLKEM_SEED_BYTES ==> (r matches Ok(a) && a@ == seed@),
            seed@.len() != MLKEM_SEED_BYTES ==> r == Err::<[u8; MLKEM_SEED_BYTES], ErrorStack>(
                ErrorStack::InvalidLength,
            ),
    {
        if seed.len() != MLKEM_SEED_BYTES {
            return Err(ErrorStack::InvalidLength);
        }
        let mut seed_arr = [0u8; MLKEM_SEED_BYTES];
        let mut i: usize = 0;
        while i < MLKEM_SEED_BYTES
            invariant
                seed@.len() == MLKEM_SEED_BYTES,
                i <= MLKEM_SEED_BYTES,
                forall|j: int| 0 <= j < i ==> seed_arr@[j] == seed@[j],
            decreases MLKEM_SEED_BYTES - i,
        {
            seed_arr[i] = seed[i];
            i = i + 1;
        }
        assert(seed_arr@ =~= seed@);
        Ok(seed_arr)
    }

    /// Builds a key pair from `seed`, given the private key that the seed
    /// expansion primitive produced from it and the encoded public key
    /// derived from that private key. A seed of the wrong length is refused.
    pub fn from_seed(
        variant: Variant,
        seed: &[u8],
        private_key: MlKemPrivateKey,
        public_key: Vec<u8>,
    ) -> (r: Result<Self, ErrorStack>)
        requires
            public_key@.len() == variant.public_key_size(),
            private_key.parameter_set() == variant,
        ensures
            seed@.len() != MLKEM_SEED_BYTES ==> (r matches Err(e) && e == ErrorStack::InvalidLength),
            seed@.len() == MLKEM_SEED_BYTES ==> (r matches Ok(p) && p@ == MlKemKeyState::key_pair(
                variant,
                public_key@,
                seed@,
                private_key,
            )),
            r matches Ok(p) ==> p@.is_valid(),
    {
        let seed_arr = Self::seed_array(seed)?;
        Ok(PKeyMlKemParams {
            variant,
            public_key_bytes: public_key,
            private_key: Some(private_key),
            seed: Some(seed_arr),
            _marker: PhantomData,
        })
    }

    /// Prepares decapsulating `ciphertext`: selects the private key and sizes
    /// the shared secret buffer. A container without a private key is refused.
    pub fn decapsulate<'a>(&'a self, ciphertext: &'a [u8]) -> (r: Result<
        MlKemDecapsulationRequest<'a>,
        ErrorStack,
    >)
        ensures
            match self@.private_key {
                Some(k) => r matches Ok(req) && *req.private_key == k && req.ciphertext@
                    == ciphertext@ && req.shared_secret@.len() == MLKEM_SHARED_SECRET_BYTES && (
                forall|i: int|
                    0 <= i < req.shared_secret@.len() ==> req.shared_secret@[i] == 0u8),
                None => (r matches Err(e) && e == ErrorStack::MissingPrivateKey),
            },
    {
        match &self.private_key {
            None => Err(ErrorStack::MissingPrivateKey),
            Some(private_key) => {
                let shared_secret = vec![0u8; MLKEM_SHARED_SECRET_BYTES];
                Ok(MlKemDecapsulationRequest { private_key, ciphertext, shared_secret })
            },
        }
    }
}

impl PKeyMlKemParams<Public> {
    /// Creates a container from encoded public key bytes; they must have the
    /// variant's public key length.
    pub fn from_public_key(variant: Variant, public_key: &[u8]) -> (r: Result<Self, ErrorStack>)
        ensures
            public_key@.len() == variant.public_key_size() ==> (r matches Ok(p) && p@
                == MlKemKeyState::public_only(variant, public_key@)),
            public_key@.len() != variant.public_key_size() ==> (r matches Err(e) && e
                == ErrorStack::InvalidLength),
            r matches Ok(p) ==> p@.is_valid(),
    {
        if public_key.len() != variant.public_key_bytes() {
            return Err(ErrorStack::InvalidLength);
        }
        Ok(PKeyMlKemParams {
            variant,
            public_key_bytes: vstd::slice::slice_to_vec(public_key),
            private_key: None,
            seed: None,
            _marker: PhantomData,
        })
    }

    /// Encapsulation is not offered over this backend: the public key bytes
    /// would have to be parsed into the library's structure first. Every call
    /// is refused.
    pub fn encapsulate(&self) -> (r: Result<(Vec<u8>, Vec<u8>), ErrorStack>)
        ensures
            r matches Err(e) && e == ErrorStack::Unsupported,
    {
        Err(ErrorStack::Unsupported)
    }
}

/// Distinct parameter sets have distinct names.
pub proof fn lemma_variant_names_distinct(a: Variant, b: Variant)
    requires
        a != b,
    ensures
        a.name() != b.name(),
{
    reveal_strlit("ML-KEM-768");
    reveal_strlit("ML-KEM-1024");
    assert("ML-KEM-768"@.len() != "ML-KEM-1024"@.len());
}

/// A container imported from public key bytes gives exactly those bytes back
/// as its public key, and holds neither a private key nor a seed.
pub proof fn lemma_public_key_round_trip(variant: Variant, public_key: Seq<u8>)
    requires
        public_key.len() == variant.public_key_size(),
    ensures
        MlKemKeyState::public_only(variant, public_key).public_key == public_key,
        MlKemKeyState::public_only(variant, public_key).private_key is None,
        MlKemKeyState::public_only(variant, public_key).seed is None,
        MlKemKeyState::public_only(variant, public_key).is_valid(),
{
}

/// A key pair gives back the seed it was built from, holds the private key
/// it was given (so that decapsulating with it is never refused), and keeps the
/// public key it was given.
pub proof fn lemma_key_pair_round_trip(
    variant: Variant,
    public_key: Seq<u8>,
    seed: Seq<u8>,
    private_key: MlKemPrivateKey,
)
    requires
        public_key.len() == variant.public_key_size(),
        seed.len() == MLKEM_SEED_BYTES,
        private_key.parameter_set() == variant,
    ensures
        MlKemKeyState::key_pair(variant, public_key, seed, private_key).seed == Some(seed),
        MlKemKeyState::key_pair(variant, public_key, seed, private_key).private_key == Some(
            private_key,
        ),
        MlKemKeyState::key_pair(variant, public_key, seed, private_key).public_key == public_key,
        MlKemKeyState::key_pair(variant, public_key, seed, private_key).is_valid(),
{
}

/// The value of a string of decimal digits.
pub open spec fn decimal_value(digits: Seq<char>) -> int
    decreases digits.len(),
{
    if digits.len() == 0 {
        0
    } else {
        decimal_value(digits.drop_last()) * 10 + (digits.last() as int - '0' as int)
    }
}

/// A private key belongs to the parameter set whose private key structure it
/// is stored in: the two structures have different sizes, and a key reports
/// a parameter set exactly when its storage has that set's size.
pub proof fn lemma_private_key_parameter_set(k: MlKemPrivateKey)
    ensures
        k.parameter_set() == Variant::MlKem768 <==> k.storage().len()
            == MLKEM768_PRIVATE_KEY_STORAGE_BYTES,
        k.parameter_set() == Variant::MlKem1024 <==> k.storage().len()
            == MLKEM1024_PRIVATE_KEY_STORAGE_BYTES,
{
    broadcast use vstd::array::group_array_axioms;
    match k {
        MlKemPrivateKey::MlKem768(x) => {
            assert(x.opaque@.len() == MLKEM768_PRIVATE_KEY_STORAGE_BYTES);
            assert(k.storage().len() == MLKEM768_PRIVATE_KEY_STORAGE_BYTES);
        },
        MlKemPrivateKey::MlKem1024(x) => {
            assert(x.opaque@.len() == MLKEM1024_PRIVATE_KEY_STORAGE_BYTES);
            assert(k.storage().len() == MLKEM1024_PRIVATE_KEY_STORAGE_BYTES);
        },
    }
}

/// A public key belongs to the parameter set whose public key structure it is
/// stored in, in the same way.
pub proof fn lemma_public_key_parameter_set(k: MlKemPublicKey)
    ensures
        k.parameter_set() == Variant::MlKem768 <==> k.storage().len()
            == MLKEM768_PUBLIC_KEY_STORAGE_BYTES,
        k.parameter_set() == Variant::MlKem1024 <==> k.storage().len()
            == MLKEM1024_PUBLIC_KEY_STORAGE_BYTES,
{
    broadcast use vstd::array::group_array_axioms;
    match k {
        MlKemPublicKey::MlKem768(x) => {
            assert(x.opaque@.len() == MLKEM768_PUBLIC_KEY_STORAGE_BYTES);
            assert(k.storage().len() == MLKEM768_PUBLIC_KEY_STORAGE_BYTES);
        },
        MlKemPublicKey::MlKem1024(x) => {
            assert(x.opaque@.len() == MLKEM1024_PUBLIC_KEY_STORAGE_BYTES);
            assert(k.storage().len() == MLKEM1024_PUBLIC_KEY_STORAGE_BYTES);
        },
    }
}

/// The encoded public key, the public key structure and the name of a
/// parameter set agree on the module rank `r`: the encoding is `r`
/// polynomials of 384 bytes and the 32-byte seed `rho`, the structure holds
/// `r + r * r` polynomials of 512 bytes and 64 more bytes, and the name ends
/// in `256 * r`.
pub proof fn lemma_public_key_size_matches_storage(p: MlKemPublicKey)
    ensures
        (p.parameter_set().public_key_size() - 32) % 384 == 0,
        ({
            let r = (p.parameter_set().public_key_size() - 32) / 384;
            &&& p.storage().len() == 512 * (r + r * r) + 64
            &&& decimal_value(p.parameter_set().name().subrange(7, p.parameter_set().name().len() as int))
                == 256 * r
        }),
{
    reveal_strlit("ML-KEM-768");
    reveal_strlit("ML-KEM-1024");
    lemma_public_key_parameter_set(p);
    reveal_with_fuel(decimal_value, 5);
    match p {
        MlKemPublicKey::MlKem768(_) => {
            assert((p.parameter_set().public_key_size() - 32) / 384 == 3);
            assert(3 * 3 == 9) by (nonlinear_arith);
            assert("ML-KEM-768"@.subrange(7, 10) =~= seq!['7', '6', '8']);
            assert(decimal_value(seq!['7', '6', '8'].drop_last()) == 76) by {
                assert(seq!['7', '6', '8'].drop_last() =~= seq!['7', '6']);
                assert(seq!['7', '6'].drop_last() =~= seq!['7']);
                assert(seq!['7'].drop_last() =~= Seq::<char>::empty());
            }
        },
        MlKemPublicKey::MlKem1024(_) => {
            assert((p.parameter_set().public_key_size() - 32) / 384 == 4);
            assert(4 * 4 == 16) by (nonlinear_arith);
            assert("ML-KEM-1024"@.subrange(7, 11) =~= seq!['1', '0', '2', '4']);
            assert(decimal_value(seq!['1', '0', '2', '4'].drop_last()) == 102) by {
                assert(seq!['1', '0', '2', '4'].drop_last() =~= seq!['1', '0', '2']);
                assert(seq!['1', '0', '2'].drop_last() =~= seq!['1', '0']);
                assert(seq!['1', '0'].drop_last() =~= seq!['1']);
                assert(seq!['1'].drop_last() =~= Seq::<char>::empty());
            }
        },
    }
}

} // verus!
