//! The flat, host-visible failure taxonomy, and the translation of the
//! backend's layered error enums into it.
//!
//! Every failure the adapter can surface is one variant of [`Error`].
//! Each variant belongs to exactly one [`ErrorKind`]: malformed input
//! (a value error), a semantically failed cryptographic operation, or an
//! illegal ordering comparison (a type error).

use vstd::prelude::*;
use vstd::string::StringExecFns;

verus! {

/// The eight wrapper types, used to tag errors and string representations.
#[derive(Clone, Copy, PartialEq, Eq, Structural, Debug)]
pub enum TypeName {
    SecretKey,
    SecretKeyFactory,
    PublicKey,
    Signer,
    Signature,
    Capsule,
    KeyFrag,
    CapsuleFrag,
}

/// The display name of a type, as a sequence of characters.
pub open spec fn name_seq(t: TypeName) -> Seq<char> {
    match t {
        TypeName::SecretKey => "SecretKey"@,
        TypeName::SecretKeyFactory => "SecretKeyFactory"@,
        TypeName::PublicKey => "PublicKey"@,
        TypeName::Signer => "Signer"@,
        TypeName::Signature => "Signature"@,
        TypeName::Capsule => "Capsule"@,
        TypeName::KeyFrag => "KeyFrag"@,
        TypeName::CapsuleFrag => "CapsuleFrag"@,
    }
}

impl TypeName {
    /// The display name of the type.
    pub fn as_str(&self) -> (r: &'static str)
        ensures
            r@ == name_seq(*self),
    {
        match self {
            TypeName::SecretKey => "SecretKey",
            TypeName::SecretKeyFactory => "SecretKeyFactory",
            TypeName::PublicKey => "PublicKey",
            TypeName::Signer => "Signer",
            TypeName::Signature => "Signature",
            TypeName::Capsule => "Capsule",
            TypeName::KeyFrag => "KeyFrag",
            TypeName::CapsuleFrag => "CapsuleFrag",
        }
    }
}

/// The host-visible classification of a failure.
#[derive(Clone, Copy, PartialEq, Eq, Structural, Debug)]
pub enum ErrorKind {
    /// Malformed input, independent of cryptographic semantics.
    ValueError,
    /// A cryptographic operation failed semantically.
    CryptographicError,
    /// An ordering comparison was requested for unordered objects.
    TypeError,
}

/// One flat error type enumerating every failure the adapter surfaces.
#[derive(Clone, Copy, PartialEq, Eq, Structural, Debug)]
pub enum Error {
    /// Deserialization input had the correct length but is not a valid
    /// instance of the type.
    ConstructionFailure(TypeName),
    /// Deserialization input is longer than the type's fixed width.
    TooManyBytes,
    /// Deserialization input is shorter than the type's fixed width.
    TooShortBytes,
    /// The plaintext exceeds the symmetric cipher's bound.
    PlaintextTooLarge,
    /// The ciphertext is shorter than the required nonce prefix.
    CiphertextTooShort,
    /// Symmetric decryption failed to authenticate.
    AuthenticationFailed,
    /// An empty capsule fragment sequence was given for combination.
    NoCapsuleFrags,
    /// The capsule fragments given for combination are not pairwise
    /// consistent.
    MismatchedCapsuleFrags,
    /// Some of the capsule fragments given for combination are repeated.
    RepeatingCapsuleFrags,
    /// An internally hashed value is zero.
    ZeroHash,
    /// A label-derived secret key resolved to the zero scalar.
    ZeroSecretKey,
    /// Internal validation of the combination result failed.
    ValidationFailed,
    /// The threshold is zero or exceeds the number of fragments requested.
    InvalidThreshold,
    /// An ordering comparison was requested for the named type.
    Unordered(TypeName),
}

/// The kind that each error variant belongs to.
pub open spec fn kind_spec(e: Error) -> ErrorKind {
    match e {
        Error::ConstructionFailure(_) => ErrorKind::ValueError,
        Error::TooManyBytes => ErrorKind::ValueError,
        Error::TooShortBytes => ErrorKind::ValueError,
        Error::PlaintextTooLarge => ErrorKind::CryptographicError,
        Error::CiphertextTooShort => ErrorKind::ValueError,
        Error::AuthenticationFailed => ErrorKind::CryptographicError,
        Error::NoCapsuleFrags => ErrorKind::ValueError,
        Error::MismatchedCapsuleFrags => ErrorKind::ValueError,
        Error::RepeatingCapsuleFrags => ErrorKind::ValueError,
        Error::ZeroHash => ErrorKind::CryptographicError,
        Error::ZeroSecretKey => ErrorKind::CryptographicError,
        Error::ValidationFailed => ErrorKind::CryptographicError,
        Error::InvalidThreshold => ErrorKind::ValueError,
        Error::Unordered(_) => ErrorKind::TypeError,
    }
}

/// The human-readable message of each error variant.
pub open spec fn message_seq(e: Error) -> Seq<char> {
    match e {
        Error::ConstructionFailure(t) => "Failed to deserialize a "@ + name_seq(t) + " object"@,
        Error::TooManyBytes => "The given bytestring is too long"@,
        Error::TooShortBytes => "The given bytestring is too short"@,
        Error::PlaintextTooLarge => "Plaintext is too large to encrypt"@,
        Error::CiphertextTooShort => "The ciphertext must include the nonce"@,
        Error::AuthenticationFailed => concat_auth_failed_message(),
        Error::NoCapsuleFrags => "Empty CapsuleFrag sequence"@,
        Error::MismatchedCapsuleFrags => "CapsuleFrags are not pairwise consistent"@,
        Error::RepeatingCapsuleFrags => "Some of the CapsuleFrags are repeated"@,
        Error::ZeroHash => "An internally hashed value is zero"@,
        Error::ZeroSecretKey => "Resulting secret key is zero"@,
        Error::ValidationFailed => "Internal validation failed"@,
        Error::InvalidThreshold => concat_invalid_threshold_message(),
        Error::Unordered(t) => name_seq(t) + " objects are not ordered"@,
    }
}

/// The message shown when symmetric decryption fails to authenticate.
pub open spec fn concat_auth_failed_message() -> Seq<char> {
    "Decryption of ciphertext failed: either someone tampered with the ciphertext or you are using an incorrect decryption key."@
}

/// The message shown when the threshold arguments are rejected.
pub open spec fn concat_invalid_threshold_message() -> Seq<char> {
    "The threshold must be at least 1 and at most the number of fragments"@
}

impl Error {
    /// The classification of this error.
    pub fn kind(&self) -> (r: ErrorKind)
        ensures
            r == kind_spec(*self),
    {
        match self {
            Error::ConstructionFailure(_) => ErrorKind::ValueError,
            Error::TooManyBytes => ErrorKind::ValueError,
            Error::TooShortBytes => ErrorKind::ValueError,
            Error::PlaintextTooLarge => ErrorKind::CryptographicError,
            Error::CiphertextTooShort => ErrorKind::ValueError,
            Error::AuthenticationFailed => ErrorKind::CryptographicError,
            Error::NoCapsuleFrags => ErrorKind::ValueError,
            Error::MismatchedCapsuleFrags => ErrorKind::ValueError,
            Error::RepeatingCapsuleFrags => ErrorKind::ValueError,
            Error::ZeroHash => ErrorKind::CryptographicError,
            Error::ZeroSecretKey => ErrorKind::CryptographicError,
            Error::ValidationFailed => ErrorKind::CryptographicError,
            Error::InvalidThreshold => ErrorKind::ValueError,
            Error::Unordered(_) => ErrorKind::TypeError,
        }
    }

    /// The human-readable message of this error.
    pub fn message(&self) -> (r: String)
        ensures
            r@ == message_seq(*self),
    {
        match self {
            Error::ConstructionFailure(t) => {
                String::from_str("Failed to deserialize a ").concat(t.as_str()).concat(" object")
            },
            Error::TooManyBytes => String::from_str("The given bytestring is too long"),
            Error::TooShortBytes => String::from_str("The given bytestring is too short"),
            Error::PlaintextTooLarge => String::from_str("Plaintext is too large to encrypt"),
            Error::CiphertextTooShort => String::from_str("The ciphertext must include the nonce"),
            Error::AuthenticationFailed => String::from_str(
                "Decryption of ciphertext failed: either someone tampered with the ciphertext or you are using an incorrect decryption key.",
            ),
            Error::NoCapsuleFrags => String::from_str("Empty CapsuleFrag sequence"),
            Error::MismatchedCapsuleFrags => String::from_str(
                "CapsuleFrags are not pairwise consistent",
            ),
            Error::RepeatingCapsuleFrags => String::from_str(
                "Some of the CapsuleFrags are repeated",
            ),
            Error::ZeroHash => String::from_str("An internally hashed value is zero"),
            Error::ZeroSecretKey => String::from_str("Resulting secret key is zero"),
            Error::ValidationFailed => String::from_str("Internal validation failed"),
            Error::InvalidThreshold => String::from_str(
                "The threshold must be at least 1 and at most the number of fragments",
            ),
            Error::Unordered(t) => String::from_str(t.as_str()).concat(" objects are not ordered"),
        }
    }
}

/// Mirror of the backend's symmetric decryption failure.
#[derive(Clone, Copy, PartialEq, Eq, Structural, Debug)]
pub enum DecryptionFailure {
    /// The ciphertext is shorter than the nonce it must start with.
    CiphertextTooShort,
    /// The ciphertext and its authentication data are inconsistent.
    AuthenticationFailed,
}

/// Mirror of the backend's failure while opening the combined fragments.
#[derive(Clone, Copy, PartialEq, Eq, Structural, Debug)]
pub enum CombineFailure {
    /// An empty capsule fragment sequence was given.
    NoCapsuleFrags,
    /// The capsule fragments are not pairwise consistent.
    MismatchedCapsuleFrags,
    /// Some of the capsule fragments are repeated.
    RepeatingCapsuleFrags,
    /// An internally hashed value is zero.
    ZeroHash,
    /// Internal validation of the result failed.
    ValidationFailed,
}

/// Mirror of the backend's two-level re-encrypted-decryption failure:
/// either the combined fragments could not be opened, or the final
/// symmetric decryption failed.
#[derive(Clone, Copy, PartialEq, Eq, Structural, Debug)]
pub enum ReencryptionFailure {
    /// Failure while opening the combined fragments.
    OnOpen(CombineFailure),
    /// Failure during the final symmetric decryption.
    OnDecryption(DecryptionFailure),
}

/// How a symmetric decryption failure is flattened.
pub open spec fn decryption_error_spec(f: DecryptionFailure) -> Error {
    match f {
        DecryptionFailure::CiphertextTooShort => Error::CiphertextTooShort,
        DecryptionFailure::AuthenticationFailed => Error::AuthenticationFailed,
    }
}

/// How a fragment combination failure is flattened.
pub open spec fn combine_error_spec(f: CombineFailure) -> Error {
    match f {
        CombineFailure::NoCapsuleFrags => Error::NoCapsuleFrags,
        CombineFailure::MismatchedCapsuleFrags => Error::MismatchedCapsuleFrags,
        CombineFailure::RepeatingCapsuleFrags => Error::RepeatingCapsuleFrags,
        CombineFailure::ZeroHash => Error::ZeroHash,
        CombineFailure::ValidationFailed => Error::ValidationFailed,
    }
}

/// How the two-level re-encrypted-decryption failure is flattened:
/// both levels collapse into the same flat error type, case by case.
pub open spec fn reencryption_error_spec(f: ReencryptionFailure) -> Error {
    match f {
        ReencryptionFailure::OnOpen(inner) => combine_error_spec(inner),
        ReencryptionFailure::OnDecryption(inner) => decryption_error_spec(inner),
    }
}

/// Flattens a symmetric decryption failure.
pub fn translate_decryption_failure(f: DecryptionFailure) -> (e: Error)
    ensures
        e == decryption_error_spec(f),
{
    match f {
        DecryptionFailure::CiphertextTooShort => Error::CiphertextTooShort,
        DecryptionFailure::AuthenticationFailed => Error::AuthenticationFailed,
    }
}

/// Flattens a fragment combination failure.
pub fn translate_combine_failure(f: CombineFailure) -> (e: Error)
    ensures
        e == combine_error_spec(f),
{
    match f {
        CombineFailure::NoCapsuleFrags => Error::NoCapsuleFrags,
        CombineFailure::MismatchedCapsuleFrags => Error::MismatchedCapsuleFrags,
        CombineFailure::RepeatingCapsuleFrags => Error::RepeatingCapsuleFrags,
        CombineFailure::ZeroHash => Error::ZeroHash,
        CombineFailure::ValidationFailed => Error::ValidationFailed,
    }
}

/// Flattens the two-level re-encrypted-decryption failure, preserving the
/// distinguishing case of each leaf.
pub fn translate_reencryption_failure(f: ReencryptionFailure) -> (e: Error)
    ensures
        e == reencryption_error_spec(f),
{
    match f {
        ReencryptionFailure::OnOpen(inner) => translate_combine_failure(inner),
        ReencryptionFailure::OnDecryption(inner) => translate_decryption_failure(inner),
    }
}

} // verus!
