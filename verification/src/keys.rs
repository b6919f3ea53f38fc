//! The key-bearing wrapper types: secret keys, the per-label key
//! factory, public keys, signers and signatures.
//!
//! Each wrapper exclusively owns one backend value and is immutable once
//! constructed. Its view is the canonical serialization of that value;
//! equality, hashing and display are all derived from it.

use vstd::prelude::*;

use crate::backend;
use crate::backend::PUBLIC_KEY_SIZE;
use crate::backend::SECRET_KEY_FACTORY_SIZE;
use crate::backend::SECRET_KEY_SIZE;
use crate::backend::SIGNATURE_SIZE;
use crate::display;
use crate::errors::Error;
use crate::errors::TypeName;
use crate::hashing;
use crate::identity;
use crate::identity::CompareOp;

verus! {

/// A secret key, wrapping one backend value.
pub struct SecretKey {
    pub(crate) inner: umbral_pre::SecretKey,
}

impl SecretKey {
    /// The canonical serialization of the wrapped key.
    pub open(crate) spec fn repr(&self) -> Seq<u8> {
        backend::sk_bytes(self.inner)
    }

    /// Draws a fresh, uniformly random key from the cryptographic
    /// random source.
    pub fn random() -> SecretKey {
        SecretKey { inner: backend::backend_secret_key_random() }
    }

    /// The canonical fixed-width serialization.
    pub fn to_bytes(&self) -> (r: Vec<u8>)
        ensures
            r@ == self.repr(),
            r@.len() == SECRET_KEY_SIZE,
    {
        backend::backend_secret_key_to_bytes(&self.inner)
    }

    /// Deserializes a key, distinguishing too-long, too-short and
    /// structurally invalid input.
    pub fn from_bytes(b: &[u8]) -> (r: Result<SecretKey, Error>)
        ensures
            b@.len() > SECRET_KEY_SIZE ==> r is Err && r->Err_0 == Error::TooManyBytes,
            b@.len() < SECRET_KEY_SIZE ==> r is Err && r->Err_0 == Error::TooShortBytes,
            r is Ok ==> b@.len() == SECRET_KEY_SIZE && r->Ok_0.repr() == b@,
            b@.len() == SECRET_KEY_SIZE && r is Err ==> r->Err_0 == Error::ConstructionFailure(
                TypeName::SecretKey,
            ),
            b@.len() == SECRET_KEY_SIZE && (exists|v: umbral_pre::SecretKey|
                backend::sk_bytes(v) == b@) ==> r is Ok,
    {
        if let Some(e) = identity::check_width(b.len(), SECRET_KEY_SIZE) {
            return Err(e);
        }
        match backend::backend_secret_key_from_bytes(b) {
            Some(v) => Ok(SecretKey { inner: v }),
            None => Err(Error::ConstructionFailure(TypeName::SecretKey)),
        }
    }

    /// Structural equality: the wrapped keys serialize identically.
    pub fn equals(&self, other: &SecretKey) -> (r: bool)
        ensures
            r == (self.repr() == other.repr()),
    {
        identity::compare_bytes(self.to_bytes().as_slice(), other.to_bytes().as_slice())
    }

    /// Equality-only rich comparison; ordering requests fail.
    pub fn richcmp(&self, other: &SecretKey, op: CompareOp) -> (r: Result<bool, Error>)
        ensures
            r == identity::richcmp_spec(TypeName::SecretKey, self.repr() == other.repr(), op),
    {
        let equal = self.equals(other);
        identity::richcmp_from_equality(TypeName::SecretKey, equal, op)
    }

    /// The opaque placeholder representation: secret material never
    /// reaches the rendered string.
    pub fn str_repr(&self) -> (r: String)
        ensures
            r@ == display::secret_repr_spec(TypeName::SecretKey),
    {
        display::secret_repr_string(TypeName::SecretKey)
    }
}

/// Round-trip: serializing a secret key and deserializing the bytes
/// yields a key equal to the original.
pub fn secret_key_roundtrip(v: &SecretKey) -> (r: bool)
    ensures
        r,
{
    let b = v.to_bytes();
    proof {
        assert(backend::sk_bytes(v.inner) == b@);
    }
    match SecretKey::from_bytes(b.as_slice()) {
        Ok(w) => w.equals(v),
        Err(_) => false,
    }
}

/// Self-equality: a secret key always compares equal to itself.
pub fn secret_key_self_equality(v: &SecretKey) -> (r: bool)
    ensures
        r,
{
    v.equals(v)
}

/// A deterministic deriver of secret keys, wrapping one backend value.
pub struct SecretKeyFactory {
    pub(crate) inner: umbral_pre::SecretKeyFactory,
}

impl SecretKeyFactory {
    /// The factory's seed bytes.
    pub open(crate) spec fn repr(&self) -> Seq<u8> {
        backend::factory_bytes(self.inner)
    }

    /// Draws a fresh, uniformly random seed from the cryptographic
    /// random source.
    pub fn random() -> SecretKeyFactory {
        SecretKeyFactory { inner: backend::backend_factory_random() }
    }

    /// Derives a secret key deterministically from the given label,
    /// failing exactly when the derived scalar is zero.
    pub fn secret_key_by_label(&self, label: &[u8]) -> (r: Result<SecretKey, Error>)
        ensures
            match backend::derived_key_of(self.repr(), label@) {
                Some(b) => r is Ok && r->Ok_0.repr() == b,
                None => r is Err && r->Err_0 == Error::ZeroSecretKey,
            },
    {
        match backend::backend_factory_make_key(&self.inner, label) {
            Some(v) => Ok(SecretKey { inner: v }),
            None => Err(Error::ZeroSecretKey),
        }
    }

    /// The canonical fixed-width serialization.
    pub fn to_bytes(&self) -> (r: Vec<u8>)
        ensures
            r@ == self.repr(),
            r@.len() == SECRET_KEY_FACTORY_SIZE,
    {
        backend::backend_factory_to_bytes(&self.inner)
    }

    /// Deserializes a factory, distinguishing too-long, too-short and
    /// structurally invalid input. Any seed of the exact width is
    /// accepted.
    pub fn from_bytes(b: &[u8]) -> (r: Result<SecretKeyFactory, Error>)
        ensures
            b@.len() > SECRET_KEY_FACTORY_SIZE ==> r is Err && r->Err_0 == Error::TooManyBytes,
            b@.len() < SECRET_KEY_FACTORY_SIZE ==> r is Err && r->Err_0 == Error::TooShortBytes,
            b@.len() == SECRET_KEY_FACTORY_SIZE ==> r is Ok && r->Ok_0.repr() == b@,
    {
        if let Some(e) = identity::check_width(b.len(), SECRET_KEY_FACTORY_SIZE) {
            return Err(e);
        }
        match backend::backend_factory_from_bytes(b) {
            Some(v) => Ok(SecretKeyFactory { inner: v }),
            None => Err(Error::ConstructionFailure(TypeName::SecretKeyFactory)),
        }
    }

    /// Structural equality: the wrapped seeds are identical.
    pub fn equals(&self, other: &SecretKeyFactory) -> (r: bool)
        ensures
            r == (self.repr() == other.repr()),
    {
        identity::compare_bytes(self.to_bytes().as_slice(), other.to_bytes().as_slice())
    }

    /// Equality-only rich comparison; ordering requests fail.
    pub fn richcmp(&self, other: &SecretKeyFactory, op: CompareOp) -> (r: Result<bool, Error>)
        ensures
            r == identity::richcmp_spec(
                TypeName::SecretKeyFactory,
                self.repr() == other.repr(),
                op,
            ),
    {
        let equal = self.equals(other);
        identity::richcmp_from_equality(TypeName::SecretKeyFactory, equal, op)
    }

    /// The opaque placeholder representation: secret material never
    /// reaches the rendered string.
    pub fn str_repr(&self) -> (r: String)
        ensures
            r@ == display::secret_repr_spec(TypeName::SecretKeyFactory),
    {
        display::secret_repr_string(TypeName::SecretKeyFactory)
    }
}

/// Round-trip: serializing a factory and deserializing the bytes yields
/// a factory equal to the original.
pub fn secret_key_factory_roundtrip(v: &SecretKeyFactory) -> (r: bool)
    ensures
        r,
{
    let b = v.to_bytes();
    match SecretKeyFactory::from_bytes(b.as_slice()) {
        Ok(w) => w.equals(v),
        Err(_) => false,
    }
}

/// A public key, wrapping one backend value.
pub struct PublicKey {
    pub(crate) inner: umbral_pre::PublicKey,
}

impl PublicKey {
    /// The canonical compressed-point serialization.
    pub open(crate) spec fn repr(&self) -> Seq<u8> {
        backend::pk_bytes(self.inner)
    }

    /// Derives the public key of a secret key: deterministic and
    /// one-way.
    pub fn from_secret_key(sk: &SecretKey) -> (r: PublicKey)
        ensures
            r.repr() == backend::pk_of(sk.repr()),
    {
        PublicKey { inner: backend::backend_public_key_from_secret(&sk.inner) }
    }

    /// The canonical fixed-width serialization.
    pub fn to_bytes(&self) -> (r: Vec<u8>)
        ensures
            r@ == self.repr(),
            r@.len() == PUBLIC_KEY_SIZE,
    {
        backend::backend_public_key_to_bytes(&self.inner)
    }

    /// Deserializes a public key, distinguishing too-long, too-short
    /// and structurally invalid input.
    pub fn from_bytes(b: &[u8]) -> (r: Result<PublicKey, Error>)
        ensures
            b@.len() > PUBLIC_KEY_SIZE ==> r is Err && r->Err_0 == Error::TooManyBytes,
            b@.len() < PUBLIC_KEY_SIZE ==> r is Err && r->Err_0 == Error::TooShortBytes,
            r is Ok ==> b@.len() == PUBLIC_KEY_SIZE && r->Ok_0.repr() == b@,
            b@.len() == PUBLIC_KEY_SIZE && r is Err ==> r->Err_0 == Error::ConstructionFailure(
                TypeName::PublicKey,
            ),
            b@.len() == PUBLIC_KEY_SIZE && (exists|v: umbral_pre::PublicKey|
                backend::pk_bytes(v) == b@) ==> r is Ok,
    {
        if let Some(e) = identity::check_width(b.len(), PUBLIC_KEY_SIZE) {
            return Err(e);
        }
        match backend::backend_public_key_from_bytes(b) {
            Some(v) => Ok(PublicKey { inner: v }),
            None => Err(Error::ConstructionFailure(TypeName::PublicKey)),
        }
    }

    /// Structural equality: the wrapped points are identical.
    pub fn equals(&self, other: &PublicKey) -> (r: bool)
        ensures
            r == (self.repr() == other.repr()),
    {
        identity::compare_bytes(self.to_bytes().as_slice(), other.to_bytes().as_slice())
    }

    /// Equality-only rich comparison; ordering requests fail.
    pub fn richcmp(&self, other: &PublicKey, op: CompareOp) -> (r: Result<bool, Error>)
        ensures
            r == identity::richcmp_spec(TypeName::PublicKey, self.repr() == other.repr(), op),
    {
        let equal = self.equals(other);
        identity::richcmp_from_equality(TypeName::PublicKey, equal, op)
    }

    /// The content-derived hash over the type name and serialization:
    /// equal keys hash equally.
    pub fn hash(&self) -> (r: u64)
        ensures
            r == hashing::content_hash_spec(TypeName::PublicKey, self.repr()),
    {
        hashing::content_hash(TypeName::PublicKey, self.to_bytes().as_slice())
    }

    /// The truncated hexadecimal content fingerprint.
    pub fn str_repr(&self) -> (r: String)
        ensures
            r@ == display::public_repr_spec(TypeName::PublicKey, self.repr()),
    {
        display::public_repr_string(TypeName::PublicKey, self.to_bytes().as_slice())
    }
}

/// Round-trip: serializing a public key and deserializing the bytes
/// yields a key equal to the original.
pub fn public_key_roundtrip(v: &PublicKey) -> (r: bool)
    ensures
        r,
{
    let b = v.to_bytes();
    proof {
        assert(backend::pk_bytes(v.inner) == b@);
    }
    match PublicKey::from_bytes(b.as_slice()) {
        Ok(w) => w.equals(v),
        Err(_) => false,
    }
}

/// A message signer, wrapping one backend value that holds the signing
/// key. The key is never re-exposed through the signer.
pub struct Signer {
    pub(crate) inner: umbral_pre::Signer,
}

impl Signer {
    /// The serialization of the signing key the signer holds.
    pub open(crate) spec fn key(&self) -> Seq<u8> {
        backend::signer_key(self.inner)
    }

    /// Builds a signer holding the given secret key.
    pub fn new(sk: &SecretKey) -> (r: Signer)
        ensures
            r.key() == sk.repr(),
    {
        Signer { inner: backend::backend_signer_new(&sk.inner) }
    }

    /// Signs a message; the signature verifies under the signer's
    /// verifying key.
    pub fn sign(&self, message: &[u8]) -> (r: Signature)
        ensures
            backend::sig_valid(r.repr(), backend::pk_of(self.key()), message@),
    {
        Signature { inner: backend::backend_signer_sign(&self.inner, message) }
    }

    /// The public key under which this signer's signatures verify.
    pub fn verifying_key(&self) -> (r: PublicKey)
        ensures
            r.repr() == backend::pk_of(self.key()),
    {
        PublicKey { inner: backend::backend_signer_verifying_key(&self.inner) }
    }

    /// Equality of signers, compared by their verifying keys.
    pub fn equals(&self, other: &Signer) -> (r: bool)
        ensures
            r == (backend::pk_of(self.key()) == backend::pk_of(other.key())),
    {
        let a = self.verifying_key();
        let b = other.verifying_key();
        a.equals(&b)
    }

    /// Equality-only rich comparison; ordering requests fail.
    pub fn richcmp(&self, other: &Signer, op: CompareOp) -> (r: Result<bool, Error>)
        ensures
            r == identity::richcmp_spec(
                TypeName::Signer,
                backend::pk_of(self.key()) == backend::pk_of(other.key()),
                op,
            ),
    {
        let equal = self.equals(other);
        identity::richcmp_from_equality(TypeName::Signer, equal, op)
    }

    /// The opaque placeholder representation: secret material never
    /// reaches the rendered string.
    pub fn str_repr(&self) -> (r: String)
        ensures
            r@ == display::secret_repr_spec(TypeName::Signer),
    {
        display::secret_repr_string(TypeName::Signer)
    }
}

/// A signature, wrapping one backend value.
pub struct Signature {
    pub(crate) inner: umbral_pre::Signature,
}

impl Signature {
    /// The canonical serialization of the signature.
    pub open(crate) spec fn repr(&self) -> Seq<u8> {
        backend::sig_bytes(self.inner)
    }

    /// Verifies the signature for the given key and message. A mismatch
    /// yields `false`, never an error.
    pub fn verify(&self, verifying_key: &PublicKey, message: &[u8]) -> (r: bool)
        ensures
            r == backend::sig_valid(self.repr(), verifying_key.repr(), message@),
    {
        backend::backend_signature_verify(&self.inner, &verifying_key.inner, message)
    }

    /// The canonical fixed-width serialization.
    pub fn to_bytes(&self) -> (r: Vec<u8>)
        ensures
            r@ == self.repr(),
            r@.len() == SIGNATURE_SIZE,
    {
        backend::backend_signature_to_bytes(&self.inner)
    }

    /// Deserializes a signature, distinguishing too-long, too-short and
    /// structurally invalid input.
    pub fn from_bytes(b: &[u8]) -> (r: Result<Signature, Error>)
        ensures
            b@.len() > SIGNATURE_SIZE ==> r is Err && r->Err_0 == Error::TooManyBytes,
            b@.len() < SIGNATURE_SIZE ==> r is Err && r->Err_0 == Error::TooShortBytes,
            r is Ok ==> b@.len() == SIGNATURE_SIZE && r->Ok_0.repr() == b@,
            b@.len() == SIGNATURE_SIZE && r is Err ==> r->Err_0 == Error::ConstructionFailure(
                TypeName::Signature,
            ),
            b@.len() == SIGNATURE_SIZE && (exists|v: umbral_pre::Signature|
                backend::sig_bytes(v) == b@) ==> r is Ok,
    {
        if let Some(e) = identity::check_width(b.len(), SIGNATURE_SIZE) {
            return Err(e);
        }
        match backend::backend_signature_from_bytes(b) {
            Some(v) => Ok(Signature { inner: v }),
            None => Err(Error::ConstructionFailure(TypeName::Signature)),
        }
    }

    /// Structural equality: the wrapped signatures are identical.
    pub fn equals(&self, other: &Signature) -> (r: bool)
        ensures
            r == (self.repr() == other.repr()),
    {
        identity::compare_bytes(self.to_bytes().as_slice(), other.to_bytes().as_slice())
    }

    /// Equality-only rich comparison; ordering requests fail.
    pub fn richcmp(&self, other: &Signature, op: CompareOp) -> (r: Result<bool, Error>)
        ensures
            r == identity::richcmp_spec(TypeName::Signature, self.repr() == other.repr(), op),
    {
        let equal = self.equals(other);
        identity::richcmp_from_equality(TypeName::Signature, equal, op)
    }

    /// The content-derived hash over the type name and serialization:
    /// equal signatures hash equally.
    pub fn hash(&self) -> (r: u64)
        ensures
            r == hashing::content_hash_spec(TypeName::Signature, self.repr()),
    {
        hashing::content_hash(TypeName::Signature, self.to_bytes().as_slice())
    }

    /// The truncated hexadecimal content fingerprint.
    pub fn str_repr(&self) -> (r: String)
        ensures
            r@ == display::public_repr_spec(TypeName::Signature, self.repr()),
    {
        display::public_repr_string(TypeName::Signature, self.to_bytes().as_slice())
    }
}

/// Round-trip: serializing a signature and deserializing the bytes
/// yields a signature equal to the original.
pub fn signature_roundtrip(v: &Signature) -> (r: bool)
    ensures
        r,
{
    let b = v.to_bytes();
    proof {
        assert(backend::sig_bytes(v.inner) == b@);
    }
    match Signature::from_bytes(b.as_slice()) {
        Ok(w) => w.equals(v),
        Err(_) => false,
    }
}

/// Signature round-trip: a signature produced by a signer verifies
/// under that signer's verifying key.
pub fn sign_verify_roundtrip(sk: &SecretKey, message: &[u8]) -> (r: bool)
    ensures
        r,
{
    let signer = Signer::new(sk);
    let signature = signer.sign(message);
    let vk = signer.verifying_key();
    signature.verify(&vk, message)
}

} // verus!
