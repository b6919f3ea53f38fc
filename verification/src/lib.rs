//! An adapter around a threshold proxy re-encryption backend.
//!
//! Eight opaque cryptographic value types are given a uniform surface:
//! canonical fixed-width byte serialization with round-trip
//! deserialization, equality-only comparison, content-derived hashing for
//! the public-bearing types, truncated human-readable representations,
//! and a flat error taxonomy covering every backend failure.

pub mod backend;
pub mod display;
pub mod errors;
pub mod fragments;
pub mod hashing;
pub mod identity;
pub mod keys;
pub mod ops;

pub use errors::Error;
pub use errors::ErrorKind;
pub use errors::TypeName;
pub use fragments::Capsule;
pub use fragments::CapsuleFrag;
pub use fragments::KeyFrag;
pub use identity::CompareOp;
pub use keys::PublicKey;
pub use keys::SecretKey;
pub use keys::SecretKeyFactory;
pub use keys::Signature;
pub use keys::Signer;
pub use ops::decrypt_original;
pub use ops::decrypt_reencrypted;
pub use ops::encrypt;
pub use ops::generate_kfrags;
pub use ops::reencrypt;
