//! Module-Lattice-Based Key-Encapsulation Mechanism.
//!
//! ML-KEM is a Key-Encapsulation Mechanism that is believed to be secure
//! against adversaries with quantum computers. It has been standardized by
//! NIST as FIPS 203.
//!
//! This container keeps the public key and the seed, and has the private key
//! expanded again from the seed whenever it is needed. The backend offers
//! ML-KEM-768 and ML-KEM-1024; ML-KEM-512 is named but refused.
//!
//! The primitives themselves are calls into the C library made by the caller
//! of this module. This module holds the decisions around them.

use core::marker::PhantomData;
use vstd::prelude::*;

use crate::error::ErrorStack;
use crate::mlkem::{
    MLKEM1024_PUBLIC_KEY_BYTES, MLKEM768_PUBLIC_KEY_BYTES, MLKEM_SEED_BYTES,
    MLKEM_SHARED_SECRET_BYTES,
};

verus! {

/// Marker for key containers that hold a private part. It is only used as a
/// type argument and carries no data.
pub struct Private;

/// An ML-KEM parameter set.
#[derive(Clone, Copy, Debug, PartialEq, Eq, Structural, Hash, PartialOrd, Ord)]
pub enum Variant {
    MlKem512,
    MlKem768,
    MlKem1024,
}

impl Variant {
    /// Whether the backend offers this parameter set.
    pub open spec fn is_supported(self) -> bool {
        self != Variant::MlKem512
    }

    /// Length of an encoded public key of a supported parameter set.
    pub open spec fn public_key_size(self) -> usize
        recommends
            self.is_supported(),
    {
        match self {
            Variant::MlKem768 => MLKEM768_PUBLIC_KEY_BYTES,
            Variant::MlKem1024 => MLKEM1024_PUBLIC_KEY_BYTES,
            Variant::MlKem512 => 0,
        }
    }

    /// Returns the length of an encoded public key of this parameter set,
    /// which must be one that the backend offers.
    pub fn public_key_bytes(&self) -> (n: usize)
        requires
            self.is_supported(),
        ensures
            n == self.public_key_size(),
    {
        match self {
            Variant::MlKem768 => MLKEM768_PUBLIC_KEY_BYTES,
            Variant::MlKem1024 => MLKEM1024_PUBLIC_KEY_BYTES,
            Variant::MlKem512 => vstd::pervasive::unreached(),
        }
    }
}

/// What a seed-holding ML-KEM key container holds.
pub struct MlKemSeedKeyState {
    pub variant: Variant,
    /// The encoded public key.
    pub public_key: Seq<u8>,
    /// The seed of the private key, where the container has a private part.
    pub seed: Option<Seq<u8>>,
}

impl MlKemSeedKeyState {
    /// The state of a key pair: its variant, its encoded public key and the
    /// seed its private key is expanded from.
    pub open spec fn key_pair(variant: Variant, public_key: Seq<u8>, seed: Seq<u8>) -> MlKemSeedKeyState {
        MlKemSeedKeyState { variant, public_key, seed: Some(seed) }
    }

    /// The shape that every container built by this module has: an offered
    /// variant, a public key of its length and a seed of the seed length.
    pub open spec fn is_valid(self) -> bool {
        &&& self.variant.is_supported()
        &&& self.public_key.len() == self.variant.public_key_size()
        &&& (self.seed matches Some(s) ==> s.len() == MLKEM_SEED_BYTES)
    }
}

/// An ML-KEM key container that keeps the seed of its private key.
pub struct PKeyMlKemParams<T> {
    variant: Variant,
    public_key_bytes: Vec<u8>,
    seed: Option<[u8; MLKEM_SEED_BYTES]>,
    _m: PhantomData<T>,
}

impl<T> View for PKeyMlKemParams<T> {
    type V = MlKemSeedKeyState;

    closed spec fn view(&self) -> MlKemSeedKeyState {
        MlKemSeedKeyState {
            variant: self.variant,
            public_key: self.public_key_bytes@,
            seed: match self.seed {
                Some(s) => Some(s@),
                None => None,
            },
        }
    }
}

/// What the primitives must be asked to decapsulate: expand `seed` into a
/// `variant` private key, then recover the shared secret of `ciphertext`
/// under it, writing into `shared_secret`.
pub struct MlKemSeedDecapsulationRequest<'a> {
    pub variant: Variant,
    pub seed: &'a [u8; MLKEM_SEED_BYTES],
    pub ciphertext: &'a [u8],
    /// The output buffer, zeroed and sized for one shared secret.
    pub shared_secret: Vec<u8>,
}

impl<T> PKeyMlKemParams<T> {
    /// Returns the variant of the key.
    pub fn variant(&self) -> (v: Variant)
        ensures
            v == self@.variant,
    {
        self.variant
    }

    /// Returns a reference to the public key.
    pub fn public_key(&self) -> (r: Result<&[u8], ErrorStack>)
        ensures
            r matches Ok(pk) && pk@ == self@.public_key,
    {
        Ok(self.public_key_bytes.as_slice())
    }
}

impl PKeyMlKemParams<Private> {
    /// Returns the private key seed.
    pub fn private_key_seed(&self) -> (r: Result<&[u8], ErrorStack>)
        ensures
            match self@.seed {
                Some(s) => r matches Ok(b) && b@ == s,
                None => r == Err::<&[u8], ErrorStack>(ErrorStack::MissingPrivateKey),
            },
    {
        match &self.seed {
            Some(s) => Ok(s.as_slice()),
            None => Err(ErrorStack::MissingPrivateKey),
        }
    }

    /// Prepares generating a key pair: refuses ML-KEM-512 and gives zeroed
    /// buffers for the encoded public key and the seed that the key
    /// generation primitive fills.
    pub fn keygen_buffers(variant: Variant) -> (r: Result<(Vec<u8>, [u8; MLKEM_SEED_BYTES]), ErrorStack>)
        ensures
            !variant.is_supported() ==> (r matches Err(e) && e == ErrorStack::Unsupported),
            variant.is_supported() ==> (r matches Ok(bufs) && bufs.0@.len()
                == variant.public_key_size() && (forall|i: int|
                0 <= i < bufs.0@.len() ==> bufs.0@[i] == 0u8) && (forall|i: int|
                0 <= i < MLKEM_SEED_BYTES ==> bufs.1@[i] == 0u8)),
    {
        if variant == Variant::MlKem512 {
            return Err(ErrorStack::Unsupported);
        }
        let public_key_bytes = vec![0u8; variant.public_key_bytes()];
        let seed = [0u8; MLKEM_SEED_BYTES];
        Ok((public_key_bytes, seed))
    }

    /// Builds a key pair from what the key generation primitive produced for
    /// `variant`: the encoded public key and the random seed of the private
    /// key. ML-KEM-512 is refused.
    pub fn generate(variant: Variant, public_key: Vec<u8>, seed: [u8; MLKEM_SEED_BYTES]) -> (r: Result<
        Self,
        ErrorStack,
    >)
        requires
            variant.is_supported() ==> public_key@.len() == variant.public_key_size(),
        ensures
            !variant.is_supported() ==> (r matches Err(e) && e == ErrorStack::Unsupported),
            variant.is_supported() ==> (r matches Ok(p) && p@ == MlKemSeedKeyState::key_pair(
                variant,
                public_key@,
                seed@,
            )),
            r matches Ok(p) ==> p@.is_valid(),
    {
        if variant == Variant::MlKem512 {
            return Err(ErrorStack::Unsupported);
        }
        Ok(PKeyMlKemParams {
            variant,
            public_key_bytes: public_key,
            seed: Some(seed),
            _m: PhantomData,
        })
    }

    /// Checks that `variant` is offered and that `seed` has the length of an
    /// ML-KEM seed, in that order, and copies the seed.
    pub fn checked_seed(variant: Variant, seed: &[u8]) -> (r: Result<[u8; MLKEM_SEED_BYTES], ErrorStack>)
        ensures
            !variant.is_supported() ==> (r matches Err(e) && e == ErrorStack::Unsupported),
            variant.is_supported() && seed@.len() != MLKEM_SEED_BYTES ==> (r matches Err(e) && e
                == ErrorStack::InvalidLength),
            variant.is_supported() && seed@.len() == MLKEM_SEED_BYTES ==> (r matches Ok(a) && a@
                == seed@),
    {
        if variant == Variant::MlKem512 {
            return Err(ErrorStack::Unsupported);
        }
        if seed.len() != MLKEM_SEED_BYTES {
            return Err(ErrorStack::InvalidLength);
        }
        let mut seed_arr = [0u8; MLKEM_SEED_BYTES];
        let mut i: usize = 0;
        while i < MLKEM_SEED_BYTES
            invariant
                seed@.len() == MLKEM_SEED_BYTES,
                i <= MLKEM_SEED_BYTES,
                forall|j: int| 0 <= j < i ==> seed_arr@[j] == seed@[j],
            decreases MLKEM_SEED_BYTES - i,
        {
            seed_arr[i] = seed[i];
            i = i + 1;
        }
        assert(seed_arr@ =~= seed@);
        Ok(seed_arr)
    }

    /// Builds a key pair from `seed`, given the encoded public key of the
    /// private key that the seed expands to. ML-KEM-512 and a seed of the
    /// wrong length are refused, in that order.
    pub fn from_seed(variant: Variant, seed: &[u8], public_key: Vec<u8>) -> (r: Result<
        Self,
        ErrorStack,
    >)
        requires
            variant.is_supported() ==> public_key@.len() == variant.public_key_size(),
        ensures
            !variant.is_supported() ==> (r matches Err(e) && e == ErrorStack::Unsupported),
            variant.is_supported() && seed@.len() != MLKEM_SEED_BYTES ==> (r matches Err(e) && e
                == ErrorStack::InvalidLength),
            variant.is_supported() && seed@.len() == MLKEM_SEED_BYTES ==> (r matches Ok(p) && p@
                == MlKemSeedKeyState::key_pair(variant, public_key@, seed@)),
            r matches Ok(p) ==> p@.is_valid(),
    {
        let seed_arr = Self::checked_seed(variant, seed)?;
        Ok(PKeyMlKemParams {
            variant,
            public_key_bytes: public_key,
            seed: Some(seed_arr),
            _m: PhantomData,
        })
    }

    /// Prepares decapsulating `ciphertext`: the seed to expand, the variant
    /// to expand it for, and a zeroed shared secret buffer. A container
    /// without a seed is refused, then one of ML-KEM-512.
    pub fn decapsulate<'a>(&'a self, ciphertext: &'a [u8]) -> (r: Result<
        MlKemSeedDecapsulationRequest<'a>,
        ErrorStack,
    >)
        ensures
            self@.seed is None ==> (r matches Err(e) && e == ErrorStack::MissingPrivateKey),
            self@.seed is Some && !self@.variant.is_supported() ==> (r matches Err(e) && e
                == ErrorStack::Unsupported),
            (self@.seed is Some && self@.variant.is_supported()) ==> (r matches Ok(req)
                && req.variant == self@.variant && self@.seed == Some(req.seed@) && req.ciphertext@
                == ciphertext@ && req.shared_secret@.len() == MLKEM_SHARED_SECRET_BYTES && (
            forall|i: int| 0 <= i < req.shared_secret@.len() ==> req.shared_secret@[i] == 0u8)),
    {
        match &self.seed {
            None => Err(ErrorStack::MissingPrivateKey),
            Some(seed) => {
                if self.variant == Variant::MlKem512 {
                    return Err(ErrorStack::Unsupported);
                }
                let shared_secret = vec![0u8; MLKEM_SHARED_SECRET_BYTES];
                Ok(MlKemSeedDecapsulationRequest {
                    variant: self.variant,
                    seed,
                    ciphertext,
                    shared_secret,
                })
            },
        }
    }
}

/// A key pair gives back the seed and public key it was built from, and its
/// variant is one that the backend offers, so that decapsulating with it is
/// refused neither for a missing seed nor for the parameter set.
pub proof fn lemma_key_pair_round_trip(variant: Variant, public_key: Seq<u8>, seed: Seq<u8>)
    requires
        variant.is_supported(),
        public_key.len() == variant.public_key_size(),
        seed.len() == MLKEM_SEED_BYTES,
    ensures
        MlKemSeedKeyState::key_pair(variant, public_key, seed).seed == Some(seed),
        MlKemSeedKeyState::key_pair(variant, public_key, seed).public_key == public_key,
        MlKemSeedKeyState::key_pair(variant, public_key, seed).variant.is_supported(),
        MlKemSeedKeyState::key_pair(variant, public_key, seed).is_valid(),
{
}

/// No valid container is of ML-KEM-512: every container this module builds
/// is valid, so ML-KEM-512 never reaches the primitives.
pub proof fn lemma_valid_state_is_supported(state: MlKemSeedKeyState)
    requires
        state.is_valid(),
    ensures
        state.variant != Variant::MlKem512,
{
}

} // verus!
