//! The re-encryption value types: capsules, key fragments and capsule
//! fragments.

use vstd::prelude::*;

use crate::backend;
use crate::backend::CAPSULE_FRAG_SIZE;
use crate::backend::CAPSULE_SIZE;
use crate::backend::KEY_FRAG_SIZE;
use crate::display;
use crate::errors::Error;
use crate::errors::TypeName;
use crate::hashing;
use crate::identity;
use crate::identity::CompareOp;
use crate::keys::PublicKey;

verus! {

/// The public data produced at encryption time, encapsulating the
/// ephemeral material needed to derive the symmetric session key.
pub struct Capsule {
    pub(crate) inner: umbral_pre::Capsule,
}

impl Capsule {
    /// The canonical serialization of the capsule.
    pub open(crate) spec fn repr(&self) -> Seq<u8> {
        backend::capsule_bytes(self.inner)
    }

    /// Whether opening this capsule runs into the backend's one
    /// unserializable value (its two points summing to the identity).
    /// Capsules returned by encryption never have this shape; a crafted
    /// one that passes the deserialization self-check can.
    pub open(crate) spec fn opening_degenerate(&self) -> bool {
        backend::capsule_opening_degenerate(self.inner)
    }

    /// The canonical fixed-width serialization.
    pub fn to_bytes(&self) -> (r: Vec<u8>)
        ensures
            r@ == self.repr(),
            r@.len() == CAPSULE_SIZE,
    {
        backend::backend_capsule_to_bytes(&self.inner)
    }

    /// Deserializes a capsule, distinguishing too-long, too-short and
    /// structurally invalid input.
    pub fn from_bytes(b: &[u8]) -> (r: Result<Capsule, Error>)
        ensures
            b@.len() > CAPSULE_SIZE ==> r is Err && r->Err_0 == Error::TooManyBytes,
            b@.len() < CAPSULE_SIZE ==> r is Err && r->Err_0 == Error::TooShortBytes,
            r is Ok ==> b@.len() == CAPSULE_SIZE && r->Ok_0.repr() == b@,
            b@.len() == CAPSULE_SIZE && r is Err ==> r->Err_0 == Error::ConstructionFailure(
                TypeName::Capsule,
            ),
            b@.len() == CAPSULE_SIZE && (exists|v: umbral_pre::Capsule|
                backend::capsule_bytes(v) == b@) ==> r is Ok,
    {
        if let Some(e) = identity::check_width(b.len(), CAPSULE_SIZE) {
            return Err(e);
        }
        match backend::backend_capsule_from_bytes(b) {
            Some(v) => Ok(Capsule { inner: v }),
            None => Err(Error::ConstructionFailure(TypeName::Capsule)),
        }
    }

    /// Structural equality: the wrapped capsules are identical.
    pub fn equals(&self, other: &Capsule) -> (r: bool)
        ensures
            r == (self.repr() == other.repr()),
    {
        identity::compare_bytes(self.to_bytes().as_slice(), other.to_bytes().as_slice())
    }

    /// Equality-only rich comparison; ordering requests fail.
    pub fn richcmp(&self, other: &Capsule, op: CompareOp) -> (r: Result<bool, Error>)
        ensures
            r == identity::richcmp_spec(TypeName::Capsule, self.repr() == other.repr(), op),
    {
        let equal = self.equals(other);
        identity::richcmp_from_equality(TypeName::Capsule, equal, op)
    }

    /// The content-derived hash over the type name and serialization:
    /// equal capsules hash equally.
    pub fn hash(&self) -> (r: u64)
        ensures
            r == hashing::content_hash_spec(TypeName::Capsule, self.repr()),
    {
        hashing::content_hash(TypeName::Capsule, self.to_bytes().as_slice())
    }

    /// The truncated hexadecimal content fingerprint.
    pub fn str_repr(&self) -> (r: String)
        ensures
            r@ == display::public_repr_spec(TypeName::Capsule, self.repr()),
    {
        display::public_repr_string(TypeName::Capsule, self.to_bytes().as_slice())
    }
}

/// Round-trip: serializing a capsule and deserializing the bytes yields
/// a capsule equal to the original.
pub fn capsule_roundtrip(v: &Capsule) -> (r: bool)
    ensures
        r,
{
    let b = v.to_bytes();
    proof {
        assert(backend::capsule_bytes(v.inner) == b@);
    }
    match Capsule::from_bytes(b.as_slice()) {
        Ok(w) => w.equals(v),
        Err(_) => false,
    }
}

/// One share of a threshold secret-sharing of a re-encryption key.
pub struct KeyFrag {
    pub(crate) inner: umbral_pre::KeyFrag,
}

impl KeyFrag {
    /// The canonical serialization of the fragment.
    pub open(crate) spec fn repr(&self) -> Seq<u8> {
        backend::kfrag_bytes(self.inner)
    }

    /// Verifies the fragment's integrity under the signing key, and
    /// optionally its binding to the delegating and receiving
    /// identities. A failed check yields `false`, never an error.
    pub fn verify(
        &self,
        signing_pk: &PublicKey,
        delegating_pk: Option<&PublicKey>,
        receiving_pk: Option<&PublicKey>,
    ) -> (r: bool)
        ensures
            r == backend::kfrag_valid(
                self.repr(),
                signing_pk.repr(),
                match delegating_pk {
                    Some(pk) => Some(pk.repr()),
                    None => None,
                },
                match receiving_pk {
                    Some(pk) => Some(pk.repr()),
                    None => None,
                },
            ),
    {
        let delegating = match delegating_pk {
            Some(pk) => Some(&pk.inner),
            None => None,
        };
        let receiving = match receiving_pk {
            Some(pk) => Some(&pk.inner),
            None => None,
        };
        backend::backend_kfrag_verify(&self.inner, &signing_pk.inner, delegating, receiving)
    }

    /// The canonical fixed-width serialization.
    pub fn to_bytes(&self) -> (r: Vec<u8>)
        ensures
            r@ == self.repr(),
            r@.len() == KEY_FRAG_SIZE,
    {
        backend::backend_kfrag_to_bytes(&self.inner)
    }

    /// Whether the fragment's key scalar field holds anything but zero.
    /// Re-encryption demands it: the backend cannot serialize the
    /// identity points a zero scalar would produce.
    pub fn has_nonzero_key(&self) -> (r: bool)
        ensures
            r == !backend::kfrag_key_is_zero(self.repr()),
    {
        let b = self.to_bytes();
        let mut i: usize = 32;
        let mut found = false;
        while i < 64
            invariant
                32 <= i <= 64,
                b@ == self.repr(),
                b@.len() == KEY_FRAG_SIZE,
                found <==> exists|j: int| 32 <= j < i && b@[j] != 0u8,
            decreases 64 - i,
        {
            if b[i] != 0 {
                found = true;
            }
            i += 1;
        }
        found
    }

    /// Deserializes a key fragment, distinguishing too-long, too-short
    /// and structurally invalid input.
    pub fn from_bytes(b: &[u8]) -> (r: Result<KeyFrag, Error>)
        ensures
            b@.len() > KEY_FRAG_SIZE ==> r is Err && r->Err_0 == Error::TooManyBytes,
            b@.len() < KEY_FRAG_SIZE ==> r is Err && r->Err_0 == Error::TooShortBytes,
            r is Ok ==> b@.len() == KEY_FRAG_SIZE && r->Ok_0.repr() == b@,
            b@.len() == KEY_FRAG_SIZE && r is Err ==> r->Err_0 == Error::ConstructionFailure(
                TypeName::KeyFrag,
            ),
            b@.len() == KEY_FRAG_SIZE && (exists|v: umbral_pre::KeyFrag|
                backend::kfrag_bytes(v) == b@) ==> r is Ok,
    {
        if let Some(e) = identity::check_width(b.len(), KEY_FRAG_SIZE) {
            return Err(e);
        }
        match backend::backend_kfrag_from_bytes(b) {
            Some(v) => Ok(KeyFrag { inner: v }),
            None => Err(Error::ConstructionFailure(TypeName::KeyFrag)),
        }
    }

    /// Structural equality: the wrapped fragments are identical.
    pub fn equals(&self, other: &KeyFrag) -> (r: bool)
        ensures
            r == (self.repr() == other.repr()),
    {
        identity::compare_bytes(self.to_bytes().as_slice(), other.to_bytes().as_slice())
    }

    /// Equality-only rich comparison; ordering requests fail.
    pub fn richcmp(&self, other: &KeyFrag, op: CompareOp) -> (r: Result<bool, Error>)
        ensures
            r == identity::richcmp_spec(TypeName::KeyFrag, self.repr() == other.repr(), op),
    {
        let equal = self.equals(other);
        identity::richcmp_from_equality(TypeName::KeyFrag, equal, op)
    }

    /// The content-derived hash over the type name and serialization:
    /// equal fragments hash equally.
    pub fn hash(&self) -> (r: u64)
        ensures
            r == hashing::content_hash_spec(TypeName::KeyFrag, self.repr()),
    {
        hashing::content_hash(TypeName::KeyFrag, self.to_bytes().as_slice())
    }

    /// The truncated hexadecimal content fingerprint.
    pub fn str_repr(&self) -> (r: String)
        ensures
            r@ == display::public_repr_spec(TypeName::KeyFrag, self.repr()),
    {
        display::public_repr_string(TypeName::KeyFrag, self.to_bytes().as_slice())
    }
}

/// Round-trip: serializing a key fragment and deserializing the bytes
/// yields a fragment equal to the original.
pub fn key_frag_roundtrip(v: &KeyFrag) -> (r: bool)
    ensures
        r,
{
    let b = v.to_bytes();
    proof {
        assert(backend::kfrag_bytes(v.inner) == b@);
    }
    match KeyFrag::from_bytes(b.as_slice()) {
        Ok(w) => w.equals(v),
        Err(_) => false,
    }
}

/// The result of transforming a capsule under one key fragment;
/// combinable with others to enable decryption.
pub struct CapsuleFrag {
    pub(crate) inner: umbral_pre::CapsuleFrag,
}

impl CapsuleFrag {
    /// The canonical serialization of the fragment.
    pub open(crate) spec fn repr(&self) -> Seq<u8> {
        backend::cfrag_bytes(self.inner)
    }

    /// Verifies the fragment's authenticity and its binding to the
    /// given capsule and keys. A failed check yields `false`, never an
    /// error.
    pub fn verify(
        &self,
        capsule: &Capsule,
        delegating_pk: &PublicKey,
        receiving_pk: &PublicKey,
        signing_pk: &PublicKey,
    ) -> (r: bool)
        ensures
            r == backend::cfrag_valid(
                self.repr(),
                capsule.repr(),
                signing_pk.repr(),
                delegating_pk.repr(),
                receiving_pk.repr(),
            ),
    {
        backend::backend_cfrag_verify(
            &self.inner,
            &capsule.inner,
            &signing_pk.inner,
            &delegating_pk.inner,
            &receiving_pk.inner,
        )
    }

    /// The canonical fixed-width serialization.
    pub fn to_bytes(&self) -> (r: Vec<u8>)
        ensures
            r@ == self.repr(),
            r@.len() == CAPSULE_FRAG_SIZE,
    {
        backend::backend_cfrag_to_bytes(&self.inner)
    }

    /// Deserializes a capsule fragment, distinguishing too-long,
    /// too-short and structurally invalid input.
    pub fn from_bytes(b: &[u8]) -> (r: Result<CapsuleFrag, Error>)
        ensures
            b@.len() > CAPSULE_FRAG_SIZE ==> r is Err && r->Err_0 == Error::TooManyBytes,
            b@.len() < CAPSULE_FRAG_SIZE ==> r is Err && r->Err_0 == Error::TooShortBytes,
            r is Ok ==> b@.len() == CAPSULE_FRAG_SIZE && r->Ok_0.repr() == b@,
            b@.len() == CAPSULE_FRAG_SIZE && r is Err ==> r->Err_0 == Error::ConstructionFailure(
                TypeName::CapsuleFrag,
            ),
            b@.len() == CAPSULE_FRAG_SIZE && (exists|v: umbral_pre::CapsuleFrag|
                backend::cfrag_bytes(v) == b@) ==> r is Ok,
    {
        if let Some(e) = identity::check_width(b.len(), CAPSULE_FRAG_SIZE) {
            return Err(e);
        }
        match backend::backend_cfrag_from_bytes(b) {
            Some(v) => Ok(CapsuleFrag { inner: v }),
            None => Err(Error::ConstructionFailure(TypeName::CapsuleFrag)),
        }
    }

    /// Structural equality: the wrapped fragments are identical.
    pub fn equals(&self, other: &CapsuleFrag) -> (r: bool)
        ensures
            r == (self.repr() == other.repr()),
    {
        identity::compare_bytes(self.to_bytes().as_slice(), other.to_bytes().as_slice())
    }

    /// Equality-only rich comparison; ordering requests fail.
    pub fn richcmp(&self, other: &CapsuleFrag, op: CompareOp) -> (r: Result<bool, Error>)
        ensures
            r == identity::richcmp_spec(TypeName::CapsuleFrag, self.repr() == other.repr(), op),
    {
        let equal = self.equals(other);
        identity::richcmp_from_equality(TypeName::CapsuleFrag, equal, op)
    }

    /// The content-derived hash over the type name and serialization:
    /// equal fragments hash equally.
    pub fn hash(&self) -> (r: u64)
        ensures
            r == hashing::content_hash_spec(TypeName::CapsuleFrag, self.repr()),
    {
        hashing::content_hash(TypeName::CapsuleFrag, self.to_bytes().as_slice())
    }

    /// The truncated hexadecimal content fingerprint.
    pub fn str_repr(&self) -> (r: String)
        ensures
            r@ == display::public_repr_spec(TypeName::CapsuleFrag, self.repr()),
    {
        display::public_repr_string(TypeName::CapsuleFrag, self.to_bytes().as_slice())
    }
}

/// Round-trip: serializing a capsule fragment and deserializing the
/// bytes yields a fragment equal to the original.
pub fn capsule_frag_roundtrip(v: &CapsuleFrag) -> (r: bool)
    ensures
        r,
{
    let b = v.to_bytes();
    proof {
        assert(backend::cfrag_bytes(v.inner) == b@);
    }
    match CapsuleFrag::from_bytes(b.as_slice()) {
        Ok(w) => w.equals(v),
        Err(_) => false,
    }
}

} // verus!
