//! Module-Lattice-Based Digital Signatures over BoringSSL's native ML-DSA API.
//!
//! ML-DSA is a signature algorithm that is believed to be secure against
//! adversaries with quantum computers. It has been standardized by NIST as
//! FIPS 204.
//!
//! The primitives themselves (key generation, seed expansion, public key
//! derivation, signing) are calls into the C library made by the caller of
//! this module. This module holds the decisions around them: which inputs are
//! refused, what a primitive must be asked, and what a key container holds
//! once the primitive has answered.

use core::marker::PhantomData;
use vstd::prelude::*;

use crate::error::ErrorStack;
use crate::mldsa::{
    MLDSA44_PUBLIC_KEY_BYTES, MLDSA44_SIGNATURE_BYTES, MLDSA44_private_key, MLDSA44_public_key,
    MLDSA65_PUBLIC_KEY_BYTES, MLDSA65_SIGNATURE_BYTES, MLDSA65_private_key, MLDSA65_public_key,
    MLDSA87_PUBLIC_KEY_BYTES, MLDSA87_SIGNATURE_BYTES, MLDSA87_private_key, MLDSA87_public_key,
    MLDSA_SEED_BYTES, MLDSA44_PRIVATE_KEY_STORAGE_BYTES, MLDSA44_PUBLIC_KEY_STORAGE_BYTES,
    MLDSA65_PRIVATE_KEY_STORAGE_BYTES, MLDSA65_PUBLIC_KEY_STORAGE_BYTES,
    MLDSA87_PRIVATE_KEY_STORAGE_BYTES, MLDSA87_PUBLIC_KEY_STORAGE_BYTES,
};
use crate::pkey::{Private, Public};

verus! {

/// An ML-DSA parameter set.
#[derive(Clone, Copy, Debug, PartialEq, Eq, Structural, Hash, PartialOrd, Ord)]
pub enum Variant {
    MlDsa44,
    MlDsa65,
    MlDsa87,
}

impl Variant {
    /// The parameter set's name as the standard writes it.
    pub open spec fn name(self) -> Seq<char> {
        match self {
            Variant::MlDsa44 => "ML-DSA-44"@,
            Variant::MlDsa65 => "ML-DSA-65"@,
            Variant::MlDsa87 => "ML-DSA-87"@,
        }
    }

    /// Length of an encoded public key of this parameter set.
    pub open spec fn public_key_size(self) -> usize {
        match self {
            Variant::MlDsa44 => MLDSA44_PUBLIC_KEY_BYTES,
            Variant::MlDsa65 => MLDSA65_PUBLIC_KEY_BYTES,
            Variant::MlDsa87 => MLDSA87_PUBLIC_KEY_BYTES,
        }
    }

    /// Length of a signature of this parameter set.
    pub open spec fn signature_size(self) -> usize {
        match self {
            Variant::MlDsa44 => MLDSA44_SIGNATURE_BYTES,
            Variant::MlDsa65 => MLDSA65_SIGNATURE_BYTES,
            Variant::MlDsa87 => MLDSA87_SIGNATURE_BYTES,
        }
    }

    /// Returns the parameter set's name, such as `"ML-DSA-65"`.
    pub fn as_str(&self) -> (s: &'static str)
        ensures
            s@ == self.name(),
    {
        match self {
            Variant::MlDsa44 => "ML-DSA-44",
            Variant::MlDsa65 => "ML-DSA-65",
            Variant::MlDsa87 => "ML-DSA-87",
        }
    }

    /// Returns the length of an encoded public key of this parameter set.
    pub fn public_key_bytes(&self) -> (n: usize)
        ensures
            n == self.public_key_size(),
    {
        match self {
            Variant::MlDsa44 => MLDSA44_PUBLIC_KEY_BYTES,
            Variant::MlDsa65 => MLDSA65_PUBLIC_KEY_BYTES,
            Variant::MlDsa87 => MLDSA87_PUBLIC_KEY_BYTES,
        }
    }

    /// Returns the length of a signature of this parameter set.
    pub fn signature_bytes(&self) -> (n: usize)
        ensures
            n == self.signature_size(),
    {
        match self {
            Variant::MlDsa44 => MLDSA44_SIGNATURE_BYTES,
            Variant::MlDsa65 => MLDSA65_SIGNATURE_BYTES,
            Variant::MlDsa87 => MLDSA87_SIGNATURE_BYTES,
        }
    }
}

/// Private key storage for ML-DSA.
pub enum MlDsaPrivateKey {
    MlDsa44(MLDSA44_private_key),
    MlDsa65(MLDSA65_private_key),
    MlDsa87(MLDSA87_private_key),
}

impl MlDsaPrivateKey {
    /// The bytes of the library's structure that this key is stored in.
    pub open spec fn storage(&self) -> Seq<u8> {
        match self {
            MlDsaPrivateKey::MlDsa44(k) => k.opaque@,
            MlDsaPrivateKey::MlDsa65(k) => k.opaque@,
            MlDsaPrivateKey::MlDsa87(k) => k.opaque@,
        }
    }

    /// The parameter set that this private key belongs to.
    pub open spec fn parameter_set(&self) -> Variant {
        match self {
            MlDsaPrivateKey::MlDsa44(_) => Variant::MlDsa44,
            MlDsaPrivateKey::MlDsa65(_) => Variant::MlDsa65,
            MlDsaPrivateKey::MlDsa87(_) => Variant::MlDsa87,
        }
    }

    /// Returns the parameter set that this private key belongs to.
    pub fn variant(&self) -> (v: Variant)
        ensures
            v == self.parameter_set(),
    {
        match self {
            MlDsaPrivateKey::MlDsa44(_) => Variant::MlDsa44,
            MlDsaPrivateKey::MlDsa65(_) => Variant::MlDsa65,
            MlDsaPrivateKey::MlDsa87(_) => Variant::MlDsa87,
        }
    }
}

/// Public key storage for ML-DSA.
pub enum MlDsaPublicKey {
    MlDsa44(MLDSA44_public_key),
    MlDsa65(MLDSA65_public_key),
    MlDsa87(MLDSA87_public_key),
}

impl MlDsaPublicKey {
    /// The bytes of the library's structure that this key is stored in.
    pub open spec fn storage(&self) -> Seq<u8> {
        match self {
            MlDsaPublicKey::MlDsa44(k) => k.opaque@,
            MlDsaPublicKey::MlDsa65(k) => k.opaque@,
            MlDsaPublicKey::MlDsa87(k) => k.opaque@,
        }
    }

    /// The parameter set that this public key belongs to.
    pub open spec fn parameter_set(&self) -> Variant {
        match self {
            MlDsaPublicKey::MlDsa44(_) => Variant::MlDsa44,
            MlDsaPublicKey::MlDsa65(_) => Variant::MlDsa65,
            MlDsaPublicKey::MlDsa87(_) => Variant::MlDsa87,
        }
    }

    /// Returns the parameter set that this public key belongs to.
    pub fn variant(&self) -> (v: Variant)
        ensures
            v == self.parameter_set(),
    {
        match self {
            MlDsaPublicKey::MlDsa44(_) => Variant::MlDsa44,
            MlDsaPublicKey::MlDsa65(_) => Variant::MlDsa65,
            MlDsaPublicKey::MlDsa87(_) => Variant::MlDsa87,
        }
    }
}

/// What an ML-DSA key container holds.
pub struct MlDsaKeyState {
    pub variant: Variant,
    /// The encoded public key.
    pub public_key: Seq<u8>,
    /// The expanded private key, where the container has a private part.
    pub private_key: Option<MlDsaPrivateKey>,
    /// The seed that the private key was expanded from, where there is one.
    pub seed: Option<Seq<u8>>,
}

impl MlDsaKeyState {
    /// The state of a key pair: its variant, its encoded public key, and the
    /// private key expanded from `seed`.
    pub open spec fn key_pair(
        variant: Variant,
        public_key: Seq<u8>,
        seed: Seq<u8>,
        private_key: MlDsaPrivateKey,
    ) -> MlDsaKeyState {
        MlDsaKeyState {
            variant,
            public_key,
            private_key: Some(private_key),
            seed: Some(seed),
        }
    }

    /// The state of a container that holds only a public key.
    pub open spec fn public_only(variant: Variant, public_key: Seq<u8>) -> MlDsaKeyState {
        MlDsaKeyState { variant, public_key, private_key: None, seed: None }
    }

    /// The shape that every container built by this module has: a public key
    /// of the variant's length, a private part of the same variant with its
    /// seed, or neither.
    pub open spec fn is_valid(self) -> bool {
        &&& self.public_key.len() == self.variant.public_key_size()
        &&& (self.private_key matches Some(k) ==> k.parameter_set() == self.variant)
        &&& (self.seed matches Some(s) ==> s.len() == MLDSA_SEED_BYTES)
        &&& (self.seed is Some <==> self.private_key is Some)
    }
}

/// An ML-DSA key container; `T` is `Private` where it may hold a private
/// part and `Public` where it holds only a public key.
pub struct PKeyMlDsaParams<T> {
    variant: Variant,
    public_key_bytes: Vec<u8>,
    private_key: Option<MlDsaPrivateKey>,
    seed: Option<[u8; MLDSA_SEED_BYTES]>,
    _marker: PhantomData<T>,
}

impl<T> View for PKeyMlDsaParams<T> {
    type V = MlDsaKeyState;

    closed spec fn view(&self) -> MlDsaKeyState {
        MlDsaKeyState {
            variant: self.variant,
            public_key: self.public_key_bytes@,
            private_key: self.private_key,
            seed: match self.seed {
                Some(s) => Some(s@),
                None => None,
            },
        }
    }
}

/// What the signing primitive must be asked: sign `message` under
/// `context` with `private_key`, writing into `signature`.
pub struct MlDsaSignRequest<'a> {
    pub private_key: &'a MlDsaPrivateKey,
    pub message: &'a [u8],
    /// The domain-separation context; `None` signs with the empty context.
    pub context: Option<&'a [u8]>,
    /// The output buffer, zeroed and sized for one signature of the variant.
    pub signature: Vec<u8>,
}

impl<T> PKeyMlDsaParams<T> {
    /// Returns the variant of the key.
    pub fn variant(&self) -> (v: Variant)
        ensures
            v == self@.variant,
    {
        self.variant
    }

    /// Returns a reference to the public key.
    pub fn public_key(&self) -> (r: Result<&[u8], ErrorStack>)
        ensures
            r matches Ok(pk) && pk@ == self@.public_key,
    {
        Ok(self.public_key_bytes.as_slice())
    }
}

impl PKeyMlDsaParams<Private> {
    /// Returns the private key seed.
    pub fn private_key_seed(&self) -> (r: Result<&[u8], ErrorStack>)
        ensures
            match self@.seed {
                Some(s) => r matches Ok(b) && b@ == s,
                None => r == Err::<&[u8], ErrorStack>(ErrorStack::MissingPrivateKey),
            },
    {
        match &self.seed {
            Some(s) => Ok(s.as_slice()),
            None => Err(ErrorStack::MissingPrivateKey),
        }
    }

    /// Prepares generating a key pair: zeroed buffers for the encoded public
    /// key and the seed that the key generation primitive fills.
    pub fn keygen_buffers(variant: Variant) -> (bufs: (Vec<u8>, [u8; MLDSA_SEED_BYTES]))
        ensures
            bufs.0@.len() == variant.public_key_size(),
            forall|i: int| 0 <= i < bufs.0@.len() ==> bufs.0@[i] == 0u8,
            forall|i: int| 0 <= i < MLDSA_SEED_BYTES ==> bufs.1@[i] == 0u8,
    {
        let public_key_bytes = vec![0u8; variant.public_key_bytes()];
        let seed = [0u8; MLDSA_SEED_BYTES];
        (public_key_bytes, seed)
    }

    /// Builds a key pair from what the key generation primitive produced for
    /// `variant`: the encoded public key, the random seed and the private key
    /// expanded from it.
    pub fn generate(
        variant: Variant,
        public_key: Vec<u8>,
        seed: [u8; MLDSA_SEED_BYTES],
        private_key: MlDsaPrivateKey,
    ) -> (r: Result<Self, ErrorStack>)
        requires
            public_key@.len() == variant.public_key_size(),
            private_key.parameter_set() == variant,
        ensures
            r matches Ok(p) && p@ == MlDsaKeyState::key_pair(variant, public_key@, seed@, private_key),
            r matches Ok(p) && p@.is_valid(),
    {
        Ok(PKeyMlDsaParams {
            variant,
            public_key_bytes: public_key,
            private_key: Some(private_key),
            seed: Some(seed),
            _marker: PhantomData,
        })
    }

    /// Checks that `seed` has the length of an ML-DSA seed and copies it.
    pub fn seed_array(seed: &[u8]) -> (r: Result<[u8; MLDSA_SEED_BYTES], ErrorStack>)
        ensures
            seed@.len() == MLDSA_SEED_BYTES ==> (r matches Ok(a) && a@ == seed@),
            seed@.len() != MLDSA_SEED_BYTES ==> r == Err::<[u8; MLDSA_SEED_BYTES], ErrorStack>(
                ErrorStack::InvalidLength,
            ),
    {
        if seed.len() != MLDSA_SEED_BYTES {
            return Err(ErrorStack::InvalidLength);
        }
        let mut seed_arr = [0u8; MLDSA_SEED_BYTES];
        let mut i: usize = 0;
        while i < MLDSA_SEED_BYTES
            invariant
                seed@.len() == MLDSA_SEED_BYTES,
                i <= MLDSA_SEED_BYTES,
                forall|j: int| 0 <= j < i ==> seed_arr@[j] == seed@[j],
            decreases MLDSA_SEED_BYTES - i,
        {
            seed_arr[i] = seed[i];
            i = i + 1;
        }
        assert(seed_arr@ =~= seed@);
        Ok(seed_arr)
    }

    /// Builds a key pair from `seed`, given the private key that the seed
    /// expansion primitive produced from it and the encoded public key
    /// derived from that private key. A seed of the wrong length is refused.
    pub fn from_seed(
        variant: Variant,
        seed: &[u8],
        private_key: MlDsaPrivateKey,
        public_key: Vec<u8>,
    ) -> (r: Result<Self, ErrorStack>)
        requires
            public_key@.len() == variant.public_key_size(),
            private_key.parameter_set() == variant,
        ensures
            seed@.len() != MLDSA_SEED_BYTES ==> (r matches Err(e) && e == ErrorStack::InvalidLength),
            seed@.len() == MLDSA_SEED_BYTES ==> (r matches Ok(p) && p@ == MlDsaKeyState::key_pair(
                variant,
                public_key@,
                seed@,
                private_key,
            )),
            r matches Ok(p) ==> p@.is_valid(),
    {
        let seed_arr = Self::seed_array(seed)?;
        Ok(PKeyMlDsaParams {
            variant,
            public_key_bytes: public_key,
            private_key: Some(private_key),
            seed: Some(seed_arr),
            _marker: PhantomData,
        })
    }

    /// Prepares signing `msg` with optional `context`: selects the private
    /// key and sizes the signature buffer. A container without a private key
    /// is refused.
    pub fn sign<'a>(&'a self, msg: &'a [u8], context: Option<&'a [u8]>) -> (r: Result<
        MlDsaSignRequest<'a>,
        ErrorStack,
    >)
        ensures
            match self@.private_key {
                Some(k) => r matches Ok(req) && *req.private_key == k && req.message@ == msg@
                    && req.context == context && req.signature@.len()
                    == self@.variant.signature_size() && (forall|i: int|
                    0 <= i < req.signature@.len() ==> req.signature@[i] == 0u8),
                None => (r matches Err(e) && e == ErrorStack::MissingPrivateKey),
            },
    {
        match &self.private_key {
            None => Err(ErrorStack::MissingPrivateKey),
            Some(private_key) => {
                let signature = vec![0u8; self.variant.signature_bytes()];
                Ok(MlDsaSignRequest { private_key, message: msg, context, signature })
            },
        }
    }
}

impl PKeyMlDsaParams<Public> {
    /// Creates a container from encoded public key bytes; they must have the
    /// variant's public key length.
    pub fn from_public_key(variant: Variant, public_key: &[u8]) -> (r: Result<Self, ErrorStack>)
        ensures
            public_key@.len() == variant.public_key_size() ==> (r matches Ok(p) && p@
                == MlDsaKeyState::public_only(variant, public_key@)),
            public_key@.len() != variant.public_key_size() ==> (r matches Err(e) && e
                == ErrorStack::InvalidLength),
            r matches Ok(p) ==> p@.is_valid(),
    {
        if public_key.len() != variant.public_key_bytes() {
            return Err(ErrorStack::InvalidLength);
        }
        Ok(PKeyMlDsaParams {
            variant,
            public_key_bytes: vstd::slice::slice_to_vec(public_key),
            private_key: None,
            seed: None,
            _marker: PhantomData,
        })
    }

    /// Verifying a signature is not offered over this backend: the public key
    /// bytes would have to be parsed into the library's structure first. Every
    /// call is refused.
    pub fn verify(&self, msg: &[u8], signature: &[u8], context: Option<&[u8]>) -> (r: Result<
        bool,
        ErrorStack,
    >)
        ensures
            r == Err::<bool, ErrorStack>(ErrorStack::Unsupported),
    {
        Err(ErrorStack::Unsupported)
    }
}

/// Distinct parameter sets have distinct names.
pub proof fn lemma_variant_names_distinct(a: Variant, b: Variant)
    requires
        a != b,
    ensures
        a.name() != b.name(),
{
    reveal_strlit("ML-DSA-44");
    reveal_strlit("ML-DSA-65");
    reveal_strlit("ML-DSA-87");
    assert("ML-DSA-44"@[8] != "ML-DSA-65"@[8]);
    assert("ML-DSA-44"@[8] != "ML-DSA-87"@[8]);
    assert("ML-DSA-65"@[8] != "ML-DSA-87"@[8]);
}

/// A container imported from public key bytes gives exactly those bytes back
/// as its public key, and holds neither a private key nor a seed.
pub proof fn lemma_public_key_round_trip(variant: Variant, public_key: Seq<u8>)
    requires
        public_key.len() == variant.public_key_size(),
    ensures
        MlDsaKeyState::public_only(variant, public_key).public_key == public_key,
        MlDsaKeyState::public_only(variant, public_key).private_key is None,
        MlDsaKeyState::public_only(variant, public_key).seed is None,
        MlDsaKeyState::public_only(variant, public_key).is_valid(),
{
}

/// A key pair gives back the seed it was built from, holds the private key
/// it was given (so that signing with it is never refused), and keeps the
/// public key it was given.
pub proof fn lemma_key_pair_round_trip(
    variant: Variant,
    public_key: Seq<u8>,
    seed: Seq<u8>,
    private_key: MlDsaPrivateKey,
)
    requires
        public_key.len() == variant.public_key_size(),
        seed.len() == MLDSA_SEED_BYTES,
        private_key.parameter_set() == variant,
    ensures
        MlDsaKeyState::key_pair(variant, public_key, seed, private_key).seed == Some(seed),
        MlDsaKeyState::key_pair(variant, public_key, seed, private_key).private_key == Some(
            private_key,
        ),
        MlDsaKeyState::key_pair(variant, public_key, seed, private_key).public_key == public_key,
        MlDsaKeyState::key_pair(variant, public_key, seed, private_key).is_valid(),
{
}

/// A private key belongs to the parameter set whose private key structure it
/// is stored in: the three structures have three different sizes, and a key
/// reports a parameter set exactly when its storage has that set's size.
pub proof fn lemma_private_key_parameter_set(k: MlDsaPrivateKey)
    ensures
        k.parameter_set() == Variant::MlDsa44 <==> k.storage().len()
            == MLDSA44_PRIVATE_KEY_STORAGE_BYTES,
        k.parameter_set() == Variant::MlDsa65 <==> k.storage().len()
            == MLDSA65_PRIVATE_KEY_STORAGE_BYTES,
        k.parameter_set() == Variant::MlDsa87 <==> k.storage().len()
            == MLDSA87_PRIVATE_KEY_STORAGE_BYTES,
{
    broadcast use vstd::array::group_array_axioms;
    match k {
        MlDsaPrivateKey::MlDsa44(x) => {
            assert(x.opaque@.len() == MLDSA44_PRIVATE_KEY_STORAGE_BYTES);
            assert(k.storage().len() == MLDSA44_PRIVATE_KEY_STORAGE_BYTES);
        },
        MlDsaPrivateKey::MlDsa65(x) => {
            assert(x.opaque@.len() == MLDSA65_PRIVATE_KEY_STORAGE_BYTES);
            assert(k.storage().len() == MLDSA65_PRIVATE_KEY_STORAGE_BYTES);
        },
        MlDsaPrivateKey::MlDsa87(x) => {
            assert(x.opaque@.len() == MLDSA87_PRIVATE_KEY_STORAGE_BYTES);
            assert(k.storage().len() == MLDSA87_PRIVATE_KEY_STORAGE_BYTES);
        },
    }
}

/// A public key belongs to the parameter set whose public key structure it is
/// stored in, in the same way.
pub proof fn lemma_public_key_parameter_set(k: MlDsaPublicKey)
    ensures
        k.parameter_set() == Variant::MlDsa44 <==> k.storage().len()
            == MLDSA44_PUBLIC_KEY_STORAGE_BYTES,
        k.parameter_set() == Variant::MlDsa65 <==> k.storage().len()
            == MLDSA65_PUBLIC_KEY_STORAGE_BYTES,
        k.parameter_set() == Variant::MlDsa87 <==> k.storage().len()
            == MLDSA87_PUBLIC_KEY_STORAGE_BYTES,
{
    broadcast use vstd::array::group_array_axioms;
    match k {
        MlDsaPublicKey::MlDsa44(x) => assert(x.opaque@.len() == MLDSA44_PUBLIC_KEY_STORAGE_BYTES),
        MlDsaPublicKey::MlDsa65(x) => assert(x.opaque@.len() == MLDSA65_PUBLIC_KEY_STORAGE_BYTES),
        MlDsaPublicKey::MlDsa87(x) => assert(x.opaque@.len() == MLDSA87_PUBLIC_KEY_STORAGE_BYTES),
    }
}

/// The encoded public key and the public key structure of a parameter set
/// agree on the matrix dimension `k`: the encoding is the 32-byte seed `rho`
/// and `k` polynomials of 320 bytes, the structure holds 96 bytes and `k`
/// polynomials of 1024 bytes. The dimension is also the first digit of the
/// parameter set's name.
pub proof fn lemma_public_key_size_matches_storage(p: MlDsaPublicKey)
    ensures
        1024 * (p.parameter_set().public_key_size() - 32) == 320 * (p.storage().len() - 96),
        p.parameter_set().public_key_size() - 32 == 320 * (p.parameter_set().name()[7] as int
            - '0' as int),
{
    broadcast use vstd::array::group_array_axioms;
    reveal_strlit("ML-DSA-44");
    reveal_strlit("ML-DSA-65");
    reveal_strlit("ML-DSA-87");
    lemma_public_key_parameter_set(p);
}

} // verus!
