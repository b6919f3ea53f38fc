//! The trusted boundary to the PRE backend.
//!
//! Every call into the backend crate goes through one wrapper here. Each
//! wrapper's contract states what the backend's source shows of that one
//! call, over uninterpreted names for the canonical byte encodings of the
//! backend's opaque values. Nothing else in the crate is trusted.

use vstd::prelude::*;

use crate::errors::CombineFailure;
use crate::errors::DecryptionFailure;
use crate::errors::ReencryptionFailure;

use umbral_pre::Capsule as BackendCapsule;
use umbral_pre::CapsuleFrag as BackendCapsuleFrag;
use umbral_pre::DeserializableFromArray;
use umbral_pre::KeyFrag as BackendKeyFrag;
use umbral_pre::PublicKey as BackendPublicKey;
use umbral_pre::SecretKey as BackendSecretKey;
use umbral_pre::SecretKeyFactory as BackendSecretKeyFactory;
use umbral_pre::SerializableToArray;
use umbral_pre::SerializableToSecretArray;
use umbral_pre::Signature as BackendSignature;
use umbral_pre::Signer as BackendSigner;

verus! {

/// The fixed serialized width of a secret key (a curve scalar).
pub const SECRET_KEY_SIZE: usize = 32;

/// The fixed serialized width of a secret key factory (its seed).
pub const SECRET_KEY_FACTORY_SIZE: usize = 32;

/// The fixed serialized width of a public key (a compressed curve point).
pub const PUBLIC_KEY_SIZE: usize = 33;

/// The fixed serialized width of a signature (two curve scalars).
pub const SIGNATURE_SIZE: usize = 64;

/// The fixed serialized width of a capsule (two points and a scalar).
pub const CAPSULE_SIZE: usize = 98;

/// The fixed serialized width of a key fragment.
pub const KEY_FRAG_SIZE: usize = 260;

/// The fixed serialized width of a capsule fragment.
pub const CAPSULE_FRAG_SIZE: usize = 359;

/// The nonce prefix length of the symmetric cipher's ciphertext.
pub const NONCE_SIZE: usize = 24;

/// The total ciphertext overhead: the nonce prefix plus the
/// authentication tag appended by the symmetric cipher.
pub const CIPHERTEXT_OVERHEAD: usize = 40;

#[verifier::external_type_specification]
#[verifier::external_body]
pub struct ExSecretKey(BackendSecretKey);

#[verifier::external_type_specification]
#[verifier::external_body]
pub struct ExSecretKeyFactory(BackendSecretKeyFactory);

#[verifier::external_type_specification]
#[verifier::external_body]
pub struct ExPublicKey(BackendPublicKey);

#[verifier::external_type_specification]
#[verifier::external_body]
pub struct ExSigner(BackendSigner);

#[verifier::external_type_specification]
#[verifier::external_body]
pub struct ExSignature(BackendSignature);

#[verifier::external_type_specification]
#[verifier::external_body]
pub struct ExCapsule(BackendCapsule);

#[verifier::external_type_specification]
#[verifier::external_body]
pub struct ExKeyFrag(BackendKeyFrag);

#[verifier::external_type_specification]
#[verifier::external_body]
pub struct ExCapsuleFrag(BackendCapsuleFrag);

#[verifier::external_type_specification]
#[verifier::external_body]
pub struct ExDecryptionError(umbral_pre::DecryptionError);

#[verifier::external_type_specification]
#[verifier::external_body]
pub struct ExOpenReencryptedError(umbral_pre::OpenReencryptedError);

/// The canonical serialization of a backend secret key, as produced by
/// `SecretKey::to_secret_array`.
pub uninterp spec fn sk_bytes(v: umbral_pre::SecretKey) -> Seq<u8>;

/// The canonical serialization of a backend secret key factory, as
/// produced by `SecretKeyFactory::to_secret_array`.
pub uninterp spec fn factory_bytes(v: umbral_pre::SecretKeyFactory) -> Seq<u8>;

/// The canonical serialization of a backend public key, as produced by
/// `PublicKey::to_array`.
pub uninterp spec fn pk_bytes(v: umbral_pre::PublicKey) -> Seq<u8>;

/// The canonical serialization of a backend signature, as produced by
/// `Signature::to_array`.
pub uninterp spec fn sig_bytes(v: umbral_pre::Signature) -> Seq<u8>;

/// The canonical serialization of a backend capsule, as produced by
/// `Capsule::to_array`.
pub uninterp spec fn capsule_bytes(v: umbral_pre::Capsule) -> Seq<u8>;

/// The canonical serialization of a backend key fragment, as produced by
/// `KeyFrag::to_array`.
pub uninterp spec fn kfrag_bytes(v: umbral_pre::KeyFrag) -> Seq<u8>;

/// The canonical serialization of a backend capsule fragment, as
/// produced by `CapsuleFrag::to_array`.
pub uninterp spec fn cfrag_bytes(v: umbral_pre::CapsuleFrag) -> Seq<u8>;

/// The serialization of the secret key a backend `Signer` was built from.
/// A `Signer` holds exactly that key and cannot itself be serialized.
pub uninterp spec fn signer_key(v: umbral_pre::Signer) -> Seq<u8>;

/// The public key bytes derived from the given secret key bytes, as
/// computed by `SecretKey::public_key`. The derivation is deterministic.
pub uninterp spec fn pk_of(sk: Seq<u8>) -> Seq<u8>;

/// The secret key bytes that `SecretKeyFactory::make_key` derives from
/// the given factory seed and label, or `None` when the derived scalar
/// is zero. The derivation is deterministic.
pub uninterp spec fn derived_key_of(factory: Seq<u8>, label: Seq<u8>) -> Option<Seq<u8>>;

/// Whether `Signature::verify` accepts the given signature for the given
/// public key and message. Verification is deterministic.
pub uninterp spec fn sig_valid(sig: Seq<u8>, pk: Seq<u8>, message: Seq<u8>) -> bool;

/// Whether `KeyFrag::verify` accepts the given key fragment under the
/// given verifying key and the optional delegating and receiving keys.
/// Verification is deterministic.
pub uninterp spec fn kfrag_valid(
    kfrag: Seq<u8>,
    verifying: Seq<u8>,
    delegating: Option<Seq<u8>>,
    receiving: Option<Seq<u8>>,
) -> bool;

/// Whether `CapsuleFrag::verify` accepts the given capsule fragment as a
/// re-encryption of the given capsule, bound to the given verifying,
/// delegating and receiving keys. Verification is deterministic.
pub uninterp spec fn cfrag_valid(
    cfrag: Seq<u8>,
    capsule: Seq<u8>,
    verifying: Seq<u8>,
    delegating: Seq<u8>,
    receiving: Seq<u8>,
) -> bool;

/// Whether a key fragment's receiver-facing signature is valid for the
/// given verifying, delegating and receiving keys and its commitment
/// equals the global parameter point times its key scalar: exactly the
/// parts of the fragment that `CapsuleFrag::verify` checks of the
/// fragment it was derived from. Deterministic; generated fragments
/// always satisfy it for their own keys.
pub uninterp spec fn kfrag_receiver_valid(
    kfrag: Seq<u8>,
    verifying: Seq<u8>,
    delegating: Seq<u8>,
    receiving: Seq<u8>,
) -> bool;

/// The plaintext that `decrypt_original` recovers for the given secret
/// key, capsule and ciphertext, or `None` when authentication fails.
/// The whole path is deterministic: a key derivation, curve arithmetic
/// and an authenticated cipher, with no randomness.
pub uninterp spec fn decrypted_original(
    sk: Seq<u8>,
    capsule: Seq<u8>,
    ciphertext: Seq<u8>,
) -> Option<Seq<u8>>;

/// The complete outcome of `decrypt_reencrypted` for the given secret
/// key, delegating key, capsule, capsule fragment serializations and
/// ciphertext: the recovered plaintext, or the failure case. The whole
/// path is deterministic.
pub uninterp spec fn reencrypted_outcome(
    sk: Seq<u8>,
    delegating: Seq<u8>,
    capsule: Seq<u8>,
    cfrags: Seq<Seq<u8>>,
    ciphertext: Seq<u8>,
) -> Result<Seq<u8>, ReencryptionFailure>;

/// Whether opening this capsule for its key-pair owner runs into the
/// backend's one unserializable value: the capsule's two points summing
/// to the identity, whose encoding the backend cannot produce. A capsule
/// returned by encryption never has this shape; a crafted one that
/// passes the capsule self-check can.
pub uninterp spec fn capsule_opening_degenerate(capsule: umbral_pre::Capsule) -> bool;

/// Whether combining these capsule fragment serializations under this
/// secret key passes the backend's fragment checks and then
/// reconstructs the identity point, the one value the backend cannot
/// serialize. Fragments produced by re-encrypting one capsule's honest
/// fragments never have this shape; crafted ones can.
pub uninterp spec fn combination_degenerate(
    sk: umbral_pre::SecretKey,
    cfrags: Seq<Seq<u8>>,
) -> bool;

/// Whether a key fragment's serialized key scalar (the second 32-byte
/// field) is zero. The backend cannot re-encrypt under such a fragment:
/// the zero scalar sends every point to the unserializable identity.
pub open spec fn kfrag_key_is_zero(kfrag: Seq<u8>) -> bool {
    forall|i: int| 32 <= i < 64 ==> kfrag[i] == 0u8
}

/// The key fragment id inside a capsule fragment's serialization: two
/// points precede it.
pub open spec fn cfrag_id_of(cfrag: Seq<u8>) -> Seq<u8> {
    cfrag.subrange(66, 98)
}

/// The precursor point inside a capsule fragment's serialization; the
/// fragments of one delegation share it.
pub open spec fn cfrag_precursor_of(cfrag: Seq<u8>) -> Seq<u8> {
    cfrag.subrange(98, 131)
}

/// Whether a plaintext is within the symmetric cipher's bound: its
/// block count must stay below the cipher's 32-bit block limit.
pub open spec fn plaintext_fits(len: nat) -> bool {
    len / 64 < 0xffff_ffff
}

/// Relies on `SecretKey::random`: draws a fresh key from the process-wide
/// cryptographic random source. Nothing is promised of the result.
#[verifier::external_body]
pub(crate) fn backend_secret_key_random() -> umbral_pre::SecretKey {
    umbral_pre::SecretKey::random()
}

/// Relies on `SecretKey::to_secret_array`: the canonical fixed-width
/// encoding of the key's scalar.
#[verifier::external_body]
pub(crate) fn backend_secret_key_to_bytes(v: &umbral_pre::SecretKey) -> (r: Vec<u8>)
    ensures
        r@ == sk_bytes(*v),
        r@.len() == SECRET_KEY_SIZE,
{
    v.to_secret_array().as_secret().as_slice().to_vec()
}

/// Relies on `SecretKey::from_bytes`: on input of the exact width it
/// accepts precisely the canonical encodings of valid keys, and decoding
/// inverts encoding.
#[verifier::external_body]
pub(crate) fn backend_secret_key_from_bytes(b: &[u8]) -> (r: Option<umbral_pre::SecretKey>)
    requires
        b@.len() == SECRET_KEY_SIZE,
    ensures
        r is Some ==> sk_bytes(r->0) == b@,
        (exists|v: umbral_pre::SecretKey| sk_bytes(v) == b@) ==> r is Some,
{
    umbral_pre::SecretKey::from_bytes(b).ok()
}

/// Relies on `SecretKey::public_key`: deterministic, one-way derivation
/// of the public key from the secret scalar.
#[verifier::external_body]
pub(crate) fn backend_public_key_from_secret(v: &umbral_pre::SecretKey) -> (r:
    umbral_pre::PublicKey)
    ensures
        pk_bytes(r) == pk_of(sk_bytes(*v)),
{
    v.public_key()
}

/// Relies on `SecretKeyFactory::random`: draws a fresh seed from the
/// process-wide cryptographic random source. Nothing is promised of the
/// result.
#[verifier::external_body]
pub(crate) fn backend_factory_random() -> umbral_pre::SecretKeyFactory {
    umbral_pre::SecretKeyFactory::random()
}

/// Relies on `SecretKeyFactory::to_secret_array`: the factory's seed
/// bytes.
#[verifier::external_body]
pub(crate) fn backend_factory_to_bytes(v: &umbral_pre::SecretKeyFactory) -> (r: Vec<u8>)
    ensures
        r@ == factory_bytes(*v),
        r@.len() == SECRET_KEY_FACTORY_SIZE,
{
    v.to_secret_array().as_secret().as_slice().to_vec()
}

/// Relies on `SecretKeyFactory::from_bytes`: any seed of the exact width
/// is accepted, and decoding inverts encoding.
#[verifier::external_body]
pub(crate) fn backend_factory_from_bytes(b: &[u8]) -> (r: Option<umbral_pre::SecretKeyFactory>)
    requires
        b@.len() == SECRET_KEY_FACTORY_SIZE,
    ensures
        r is Some,
        r is Some ==> factory_bytes(r->0) == b@,
{
    umbral_pre::SecretKeyFactory::from_bytes(b).ok()
}

/// Relies on `SecretKeyFactory::make_key`: deterministic per-label key
/// derivation, failing exactly when the derived scalar is zero.
#[verifier::external_body]
pub(crate) fn backend_factory_make_key(
    v: &umbral_pre::SecretKeyFactory,
    label: &[u8],
) -> (r: Option<umbral_pre::SecretKey>)
    ensures
        match derived_key_of(factory_bytes(*v), label@) {
            Some(b) => r is Some && sk_bytes(r->0) == b,
            None => r is None,
        },
{
    v.make_key(label).ok()
}

/// Relies on `Signer::new`: the signer holds exactly the given key.
#[verifier::external_body]
pub(crate) fn backend_signer_new(v: &umbral_pre::SecretKey) -> (r: umbral_pre::Signer)
    ensures
        signer_key(r) == sk_bytes(*v),
{
    umbral_pre::Signer::new(v)
}

/// Relies on `Signer::sign`: produces a signature over the message that
/// verifies under the signer's verifying key. Signing is randomized, so
/// nothing more is promised of the bytes produced.
#[verifier::external_body]
pub(crate) fn backend_signer_sign(v: &umbral_pre::Signer, message: &[u8]) -> (r:
    umbral_pre::Signature)
    ensures
        sig_valid(sig_bytes(r), pk_of(signer_key(*v)), message@),
{
    v.sign(message)
}

/// Relies on `Signer::verifying_key`: returns the public key of the held
/// secret key, by the same derivation as `SecretKey::public_key`.
#[verifier::external_body]
pub(crate) fn backend_signer_verifying_key(v: &umbral_pre::Signer) -> (r: umbral_pre::PublicKey)
    ensures
        pk_bytes(r) == pk_of(signer_key(*v)),
{
    v.verifying_key()
}

/// Relies on `Signature::to_array`: the canonical fixed-width encoding.
#[verifier::external_body]
pub(crate) fn backend_signature_to_bytes(v: &umbral_pre::Signature) -> (r: Vec<u8>)
    ensures
        r@ == sig_bytes(*v),
        r@.len() == SIGNATURE_SIZE,
{
    v.to_array().as_slice().to_vec()
}

/// Relies on `Signature::from_bytes`: on input of the exact width it
/// accepts the canonical encodings of valid signatures, and decoding
/// inverts encoding.
#[verifier::external_body]
pub(crate) fn backend_signature_from_bytes(b: &[u8]) -> (r: Option<umbral_pre::Signature>)
    requires
        b@.len() == SIGNATURE_SIZE,
    ensures
        r is Some ==> sig_bytes(r->0) == b@,
        (exists|v: umbral_pre::Signature| sig_bytes(v) == b@) ==> r is Some,
{
    umbral_pre::Signature::from_bytes(b).ok()
}

/// Relies on `Signature::verify`: deterministic verification of the
/// signature for the given key and message; a mismatch yields `false`,
/// never an error.
#[verifier::external_body]
pub(crate) fn backend_signature_verify(
    v: &umbral_pre::Signature,
    pk: &umbral_pre::PublicKey,
    message: &[u8],
) -> (r: bool)
    ensures
        r == sig_valid(sig_bytes(*v), pk_bytes(*pk), message@),
{
    v.verify(pk, message)
}

/// Relies on `PublicKey::to_array`: the canonical compressed-point
/// encoding.
#[verifier::external_body]
pub(crate) fn backend_public_key_to_bytes(v: &umbral_pre::PublicKey) -> (r: Vec<u8>)
    ensures
        r@ == pk_bytes(*v),
        r@.len() == PUBLIC_KEY_SIZE,
{
    v.to_array().as_slice().to_vec()
}

/// Relies on `PublicKey::from_bytes`: on input of the exact width it
/// accepts precisely the canonical encodings of curve points, and
/// decoding inverts encoding.
#[verifier::external_body]
pub(crate) fn backend_public_key_from_bytes(b: &[u8]) -> (r: Option<umbral_pre::PublicKey>)
    requires
        b@.len() == PUBLIC_KEY_SIZE,
    ensures
        r is Some ==> pk_bytes(r->0) == b@,
        (exists|v: umbral_pre::PublicKey| pk_bytes(v) == b@) ==> r is Some,
{
    umbral_pre::PublicKey::from_bytes(b).ok()
}

/// Relies on `Capsule::to_array`: the canonical fixed-width encoding.
#[verifier::external_body]
pub(crate) fn backend_capsule_to_bytes(v: &umbral_pre::Capsule) -> (r: Vec<u8>)
    ensures
        r@ == capsule_bytes(*v),
        r@.len() == CAPSULE_SIZE,
{
    v.to_array().as_slice().to_vec()
}

/// Relies on `Capsule::from_bytes`: on input of the exact width it
/// accepts the canonical encodings of self-consistent capsules, and
/// decoding inverts encoding.
#[verifier::external_body]
pub(crate) fn backend_capsule_from_bytes(b: &[u8]) -> (r: Option<umbral_pre::Capsule>)
    requires
        b@.len() == CAPSULE_SIZE,
    ensures
        r is Some ==> capsule_bytes(r->0) == b@,
        (exists|v: umbral_pre::Capsule| capsule_bytes(v) == b@) ==> r is Some,
{
    umbral_pre::Capsule::from_bytes(b).ok()
}

/// Relies on `KeyFrag::to_array`: the canonical fixed-width encoding.
#[verifier::external_body]
pub(crate) fn backend_kfrag_to_bytes(v: &umbral_pre::KeyFrag) -> (r: Vec<u8>)
    ensures
        r@ == kfrag_bytes(*v),
        r@.len() == KEY_FRAG_SIZE,
{
    v.to_array().as_slice().to_vec()
}

/// Relies on `KeyFrag::from_bytes`: on input of the exact width it
/// accepts the canonical encodings of well-formed fragments, and
/// decoding inverts encoding.
#[verifier::external_body]
pub(crate) fn backend_kfrag_from_bytes(b: &[u8]) -> (r: Option<umbral_pre::KeyFrag>)
    requires
        b@.len() == KEY_FRAG_SIZE,
    ensures
        r is Some ==> kfrag_bytes(r->0) == b@,
        (exists|v: umbral_pre::KeyFrag| kfrag_bytes(v) == b@) ==> r is Some,
{
    umbral_pre::KeyFrag::from_bytes(b).ok()
}

/// Relies on `KeyFrag::verify`: deterministic integrity verification of
/// the fragment; a failed check yields `false`, never an error.
#[verifier::external_body]
pub(crate) fn backend_kfrag_verify(
    v: &umbral_pre::KeyFrag,
    verifying_pk: &umbral_pre::PublicKey,
    delegating_pk: Option<&umbral_pre::PublicKey>,
    receiving_pk: Option<&umbral_pre::PublicKey>,
) -> (r: bool)
    ensures
        r == kfrag_valid(
            kfrag_bytes(*v),
            pk_bytes(*verifying_pk),
            match delegating_pk {
                Some(pk) => Some(pk_bytes(*pk)),
                None => None,
            },
            match receiving_pk {
                Some(pk) => Some(pk_bytes(*pk)),
                None => None,
            },
        ),
{
    v.verify(verifying_pk, delegating_pk, receiving_pk).is_ok()
}

/// Relies on `CapsuleFrag::to_array`: the canonical fixed-width
/// encoding.
#[verifier::external_body]
pub(crate) fn backend_cfrag_to_bytes(v: &umbral_pre::CapsuleFrag) -> (r: Vec<u8>)
    ensures
        r@ == cfrag_bytes(*v),
        r@.len() == CAPSULE_FRAG_SIZE,
{
    v.to_array().as_slice().to_vec()
}

/// Relies on `CapsuleFrag::from_bytes`: on input of the exact width it
/// accepts the canonical encodings of well-formed fragments, and
/// decoding inverts encoding.
#[verifier::external_body]
pub(crate) fn backend_cfrag_from_bytes(b: &[u8]) -> (r: Option<umbral_pre::CapsuleFrag>)
    requires
        b@.len() == CAPSULE_FRAG_SIZE,
    ensures
        r is Some ==> cfrag_bytes(r->0) == b@,
        (exists|v: umbral_pre::CapsuleFrag| cfrag_bytes(v) == b@) ==> r is Some,
{
    umbral_pre::CapsuleFrag::from_bytes(b).ok()
}

/// Relies on `CapsuleFrag::clone` (a derived field-wise clone): the copy
/// has the same canonical encoding.
#[verifier::external_body]
pub(crate) fn backend_cfrag_clone(v: &umbral_pre::CapsuleFrag) -> (r: umbral_pre::CapsuleFrag)
    ensures
        cfrag_bytes(r) == cfrag_bytes(*v),
{
    v.clone()
}

/// Relies on `CapsuleFrag::verify`: deterministic verification of the
/// fragment's authenticity and its binding to the given capsule and
/// keys; a failed check yields `false`, never an error.
#[verifier::external_body]
pub(crate) fn backend_cfrag_verify(
    v: &umbral_pre::CapsuleFrag,
    capsule: &umbral_pre::Capsule,
    verifying_pk: &umbral_pre::PublicKey,
    delegating_pk: &umbral_pre::PublicKey,
    receiving_pk: &umbral_pre::PublicKey,
) -> (r: bool)
    ensures
        r == cfrag_valid(
            cfrag_bytes(*v),
            capsule_bytes(*capsule),
            pk_bytes(*verifying_pk),
            pk_bytes(*delegating_pk),
            pk_bytes(*receiving_pk),
        ),
{
    v.verify(capsule, verifying_pk, delegating_pk, receiving_pk).is_ok()
}

/// Relies on `encrypt`: the ciphertext is the random nonce prefix
/// followed by the authenticated encryption of the plaintext, and the
/// one failure, a plaintext beyond the cipher's bound, is deterministic
/// in the plaintext length. Encryption is randomized, so nothing more
/// is promised of the bytes produced.
#[verifier::external_body]
pub(crate) fn backend_encrypt(pk: &umbral_pre::PublicKey, plaintext: &[u8]) -> (r: Option<
    (umbral_pre::Capsule, Vec<u8>),
>)
    ensures
        r is Some <==> plaintext_fits(plaintext@.len()),
        r matches Some(p) ==> (p.1)@.len() == plaintext@.len() + CIPHERTEXT_OVERHEAD,
        r matches Some(p) ==> !capsule_opening_degenerate(p.0),
        r matches Some(p) ==> forall|skb: Seq<u8>|
            #[trigger] pk_of(skb) == pk_bytes(*pk) ==> decrypted_original(
                skb,
                capsule_bytes(p.0),
                (p.1)@,
            ) == Some(plaintext@),
{
    umbral_pre::encrypt(pk, plaintext).ok().map(|(capsule, ct)| (capsule, ct.into_vec()))
}

/// Mirrors the backend's symmetric decryption error, variant by
/// variant.
#[verifier::external_body]
pub(crate) fn mirror_decryption_error(e: umbral_pre::DecryptionError) -> DecryptionFailure {
    match e {
        umbral_pre::DecryptionError::CiphertextTooShort => DecryptionFailure::CiphertextTooShort,
        umbral_pre::DecryptionError::AuthenticationFailed => DecryptionFailure::AuthenticationFailed,
    }
}

/// Mirrors the backend's fragment combination error, variant by
/// variant.
#[verifier::external_body]
pub(crate) fn mirror_open_error(e: umbral_pre::OpenReencryptedError) -> CombineFailure {
    match e {
        umbral_pre::OpenReencryptedError::NoCapsuleFrags => CombineFailure::NoCapsuleFrags,
        umbral_pre::OpenReencryptedError::MismatchedCapsuleFrags => CombineFailure::MismatchedCapsuleFrags,
        umbral_pre::OpenReencryptedError::RepeatingCapsuleFrags => CombineFailure::RepeatingCapsuleFrags,
        umbral_pre::OpenReencryptedError::ZeroHash => CombineFailure::ZeroHash,
        umbral_pre::OpenReencryptedError::ValidationFailed => CombineFailure::ValidationFailed,
    }
}

/// Relies on `decrypt_original`: deterministic decryption by the
/// original key-pair owner, with its result named. The ciphertext is
/// rejected as too short exactly when it cannot contain the nonce
/// prefix; any other failure is an authentication failure. A degenerate
/// capsule is excluded: the backend cannot serialize the identity point
/// such a capsule opens to.
#[verifier::external_body]
pub(crate) fn backend_decrypt_original(
    sk: &umbral_pre::SecretKey,
    capsule: &umbral_pre::Capsule,
    ciphertext: &[u8],
) -> (r: Result<Vec<u8>, DecryptionFailure>)
    requires
        !capsule_opening_degenerate(*capsule),
    ensures
        (r == Result::<Vec<u8>, DecryptionFailure>::Err(DecryptionFailure::CiphertextTooShort))
            <==> ciphertext@.len() < NONCE_SIZE,
        ciphertext@.len() >= NONCE_SIZE ==> (r is Ok <==> decrypted_original(
            sk_bytes(*sk),
            capsule_bytes(*capsule),
            ciphertext@,
        ) is Some),
        r is Ok ==> r->Ok_0@ == decrypted_original(
            sk_bytes(*sk),
            capsule_bytes(*capsule),
            ciphertext@,
        )->0,
{
    umbral_pre::decrypt_original(sk, capsule, ciphertext)
        .map(|p| p.into_vec())
        .map_err(mirror_decryption_error)
}

/// Relies on `generate_kfrags`: returns exactly `num_kfrags` key
/// fragments of the delegating key. Each fragment passes `KeyFrag::verify`
/// under the signer's verifying key together with the delegating and
/// receiving keys it was made for, and carries a receiver-facing
/// signature over those two keys. The sharing itself is randomized, so
/// nothing more is promised of the fragments' contents.
#[verifier::external_body]
pub(crate) fn backend_generate_kfrags(
    delegating_sk: &umbral_pre::SecretKey,
    receiving_pk: &umbral_pre::PublicKey,
    signer: &umbral_pre::Signer,
    threshold: usize,
    num_kfrags: usize,
    sign_delegating_key: bool,
    sign_receiving_key: bool,
) -> (r: Vec<umbral_pre::KeyFrag>)
    requires
        1 <= threshold <= num_kfrags,
    ensures
        r@.len() == num_kfrags,
        forall|i: int|
            0 <= i < r@.len() ==> kfrag_valid(
                #[trigger] kfrag_bytes(r@[i]),
                pk_of(signer_key(*signer)),
                Some(pk_of(sk_bytes(*delegating_sk))),
                Some(pk_bytes(*receiving_pk)),
            ),
        forall|i: int|
            0 <= i < r@.len() ==> kfrag_receiver_valid(
                #[trigger] kfrag_bytes(r@[i]),
                pk_of(signer_key(*signer)),
                pk_of(sk_bytes(*delegating_sk)),
                pk_bytes(*receiving_pk),
            ),
        forall|i: int|
            0 <= i < r@.len() ==> (#[trigger] kfrag_bytes(r@[i])).subrange(64, 97) == kfrag_bytes(
                r@[0],
            ).subrange(64, 97),
{
    let verified = umbral_pre::generate_kfrags(
        delegating_sk,
        receiving_pk,
        signer,
        threshold,
        num_kfrags,
        sign_delegating_key,
        sign_receiving_key,
    );
    verified
        .iter()
        .map(|vk| umbral_pre::KeyFrag::from_bytes(vk.to_array()).unwrap())
        .collect()
}

/// Relies on `reencrypt`: transforms the capsule under the key fragment
/// into a capsule fragment that carries the fragment's id and precursor
/// verbatim. The produced fragment's re-encryption proof holds by
/// construction for every draw of the transform's randomness, so the
/// fragment passes `CapsuleFrag::verify` against this capsule under
/// exactly the keys for which the key fragment's receiver-facing
/// signature is valid. A fragment with the zero key scalar is excluded:
/// the backend cannot serialize the identity points it would produce.
/// The fragment is accepted as already verified, as
/// `VerifiedKeyFrag::from_verified_bytes` documents.
#[verifier::external_body]
pub(crate) fn backend_reencrypt(
    capsule: &umbral_pre::Capsule,
    kfrag: &umbral_pre::KeyFrag,
) -> (r: umbral_pre::CapsuleFrag)
    requires
        !kfrag_key_is_zero(kfrag_bytes(*kfrag)),
    ensures
        cfrag_bytes(r).len() == CAPSULE_FRAG_SIZE,
        cfrag_id_of(cfrag_bytes(r)) == kfrag_bytes(*kfrag).subrange(0, 32),
        cfrag_precursor_of(cfrag_bytes(r)) == kfrag_bytes(*kfrag).subrange(64, 97),
        !capsule_opening_degenerate(*capsule) ==> forall|sk: umbral_pre::SecretKey|
            !combination_degenerate(sk, #[trigger] seq![cfrag_bytes(r)]),
        forall|vk: Seq<u8>, d: Seq<u8>, rk: Seq<u8>|
            #[trigger] kfrag_receiver_valid(kfrag_bytes(*kfrag), vk, d, rk) ==> cfrag_valid(
                cfrag_bytes(r),
                capsule_bytes(*capsule),
                vk,
                d,
                rk,
            ),
{
    let verified = umbral_pre::VerifiedKeyFrag::from_verified_bytes(kfrag.to_array()).unwrap();
    let vcfrag = umbral_pre::reencrypt(capsule, &verified);
    umbral_pre::CapsuleFrag::from_bytes(vcfrag.to_array()).unwrap()
}

/// Relies on `decrypt_reencrypted`: combines the capsule fragments and
/// decrypts, a deterministic path whose complete outcome is named. An
/// empty fragment sequence fails exactly with the empty-sequence case;
/// a fragment set whose precursors disagree fails exactly with the
/// mismatched case; a consistent set with a repeated fragment id fails
/// with the repeated case; a too-short ciphertext is only reported when
/// combination itself succeeded. The fragments are accepted as already
/// verified, as `VerifiedCapsuleFrag::from_verified_bytes` documents.
/// A degenerate combination is excluded: the backend cannot serialize
/// the identity point such a set reconstructs.
#[verifier::external_body]
pub(crate) fn backend_decrypt_reencrypted(
    receiving_sk: &umbral_pre::SecretKey,
    delegating_pk: &umbral_pre::PublicKey,
    capsule: &umbral_pre::Capsule,
    cfrags: &Vec<umbral_pre::CapsuleFrag>,
    ciphertext: &[u8],
) -> (r: Result<Vec<u8>, ReencryptionFailure>)
    requires
        !combination_degenerate(
            *receiving_sk,
            cfrags@.map_values(|c: umbral_pre::CapsuleFrag| cfrag_bytes(c)),
        ),
    ensures
        match reencrypted_outcome(
            sk_bytes(*receiving_sk),
            pk_bytes(*delegating_pk),
            capsule_bytes(*capsule),
            cfrags@.map_values(|c: umbral_pre::CapsuleFrag| cfrag_bytes(c)),
            ciphertext@,
        ) {
            Ok(p) => r is Ok && r->Ok_0@ == p,
            Err(f) => r is Err && r->Err_0 == f,
        },
        cfrags@.len() == 0 ==> r is Err && r->Err_0 == ReencryptionFailure::OnOpen(
            CombineFailure::NoCapsuleFrags,
        ),
        cfrags@.len() > 0 && (exists|i: int|
            0 <= i < cfrags@.len() && cfrag_precursor_of(#[trigger] cfrag_bytes(cfrags@[i]))
                != cfrag_precursor_of(cfrag_bytes(cfrags@[0]))) ==> r is Err && r->Err_0
            == ReencryptionFailure::OnOpen(CombineFailure::MismatchedCapsuleFrags),
        cfrags@.len() > 0 && (forall|i: int|
            0 <= i < cfrags@.len() ==> cfrag_precursor_of(#[trigger] cfrag_bytes(cfrags@[i]))
                == cfrag_precursor_of(cfrag_bytes(cfrags@[0]))) && r is Err ==> r->Err_0
            != ReencryptionFailure::OnOpen(CombineFailure::MismatchedCapsuleFrags),
        cfrags@.len() > 0 && (forall|i: int|
            0 <= i < cfrags@.len() ==> cfrag_precursor_of(#[trigger] cfrag_bytes(cfrags@[i]))
                == cfrag_precursor_of(cfrag_bytes(cfrags@[0]))) && (exists|i: int, j: int|
            0 <= i < j < cfrags@.len() && cfrag_id_of(#[trigger] cfrag_bytes(cfrags@[i]))
                == cfrag_id_of(#[trigger] cfrag_bytes(cfrags@[j]))) ==> r is Err && r->Err_0
            == ReencryptionFailure::OnOpen(CombineFailure::RepeatingCapsuleFrags),
        ciphertext@.len() >= NONCE_SIZE && r is Err ==> r->Err_0
            != ReencryptionFailure::OnDecryption(DecryptionFailure::CiphertextTooShort),
{
    let verified: Vec<umbral_pre::VerifiedCapsuleFrag> = cfrags
        .iter()
        .map(|c| umbral_pre::VerifiedCapsuleFrag::from_verified_bytes(c.to_array()).unwrap())
        .collect();
    umbral_pre::decrypt_reencrypted(receiving_sk, delegating_pk, capsule, &verified, ciphertext)
        .map(|p| p.into_vec())
        .map_err(|e| match e {
            umbral_pre::ReencryptionError::OnOpen(o) => ReencryptionFailure::OnOpen(
                mirror_open_error(o),
            ),
            umbral_pre::ReencryptionError::OnDecryption(d) => ReencryptionFailure::OnDecryption(
                mirror_decryption_error(d),
            ),
        })
}

/// Relies on `hex::encode`: two lowercase hexadecimal digits for each
/// byte, in order.
#[verifier::external_body]
pub(crate) fn backend_hex_encode(b: &[u8]) -> (r: String)
    ensures
        r@ == crate::display::hex_seq(b@),
{
    hex::encode(b)
}

} // verus!
