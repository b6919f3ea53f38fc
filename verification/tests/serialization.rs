//! Serialization, equality, hashing, display and error taxonomy tests.

use umbral::backend::CAPSULE_SIZE;
use umbral::backend::KEY_FRAG_SIZE;
use umbral::backend::PUBLIC_KEY_SIZE;
use umbral::backend::SECRET_KEY_FACTORY_SIZE;
use umbral::backend::SECRET_KEY_SIZE;
use umbral::backend::SIGNATURE_SIZE;
use umbral::encrypt;
use umbral::generate_kfrags;
use umbral::reencrypt;
use umbral::Capsule;
use umbral::CapsuleFrag;
use umbral::CompareOp;
use umbral::Error;
use umbral::ErrorKind;
use umbral::KeyFrag;
use umbral::PublicKey;
use umbral::SecretKey;
use umbral::SecretKeyFactory;
use umbral::Signature;
use umbral::Signer;
use umbral::TypeName;

fn sample_capsule_and_ciphertext() -> (PublicKey, Capsule, Vec<u8>) {
    let sk = SecretKey::random();
    let pk = PublicKey::from_secret_key(&sk);
    let (capsule, ct) = encrypt(&pk, b"sample plaintext").unwrap();
    (pk, capsule, ct)
}

fn sample_kfrag() -> KeyFrag {
    let delegating = SecretKey::random();
    let receiving = PublicKey::from_secret_key(&SecretKey::random());
    let signing = SecretKey::random();
    let mut kfrags = generate_kfrags(&delegating, &receiving, &signing, 2, 3, true, true).unwrap();
    kfrags.pop().unwrap()
}

#[test]
fn secret_key_roundtrip_exact() {
    let sk = SecretKey::random();
    let bytes = sk.to_bytes();
    assert_eq!(bytes.len(), SECRET_KEY_SIZE);
    let back = SecretKey::from_bytes(&bytes).unwrap();
    assert!(back.equals(&sk));
    assert!(umbral::keys::secret_key_roundtrip(&sk));
}

#[test]
fn secret_key_factory_roundtrip_exact() {
    let f = SecretKeyFactory::random();
    let bytes = f.to_bytes();
    assert_eq!(bytes.len(), SECRET_KEY_FACTORY_SIZE);
    let back = SecretKeyFactory::from_bytes(&bytes).unwrap();
    assert!(back.equals(&f));
    assert!(umbral::keys::secret_key_factory_roundtrip(&f));
}

#[test]
fn public_key_roundtrip_exact() {
    let pk = PublicKey::from_secret_key(&SecretKey::random());
    let bytes = pk.to_bytes();
    assert_eq!(bytes.len(), PUBLIC_KEY_SIZE);
    let back = PublicKey::from_bytes(&bytes).unwrap();
    assert!(back.equals(&pk));
    assert!(umbral::keys::public_key_roundtrip(&pk));
}

#[test]
fn signature_roundtrip_exact() {
    let sk = SecretKey::random();
    let signature = Signer::new(&sk).sign(b"message");
    let bytes = signature.to_bytes();
    assert_eq!(bytes.len(), SIGNATURE_SIZE);
    let back = Signature::from_bytes(&bytes).unwrap();
    assert!(back.equals(&signature));
    assert!(umbral::keys::signature_roundtrip(&signature));
}

#[test]
fn capsule_roundtrip_exact() {
    let (_, capsule, _) = sample_capsule_and_ciphertext();
    let bytes = capsule.to_bytes();
    assert_eq!(bytes.len(), CAPSULE_SIZE);
    let back = Capsule::from_bytes(&bytes).unwrap();
    assert!(back.equals(&capsule));
    assert!(umbral::fragments::capsule_roundtrip(&capsule));
}

#[test]
fn key_frag_roundtrip_exact() {
    let kfrag = sample_kfrag();
    let bytes = kfrag.to_bytes();
    assert_eq!(bytes.len(), KEY_FRAG_SIZE);
    let back = KeyFrag::from_bytes(&bytes).unwrap();
    assert!(back.equals(&kfrag));
    assert!(umbral::fragments::key_frag_roundtrip(&kfrag));
}

#[test]
fn capsule_frag_roundtrip_exact() {
    let (_, capsule, _) = sample_capsule_and_ciphertext();
    let kfrag = sample_kfrag();
    let cfrag = reencrypt(&capsule, &kfrag);
    let bytes = cfrag.to_bytes();
    let back = CapsuleFrag::from_bytes(&bytes).unwrap();
    assert!(back.equals(&cfrag));
    assert!(umbral::fragments::capsule_frag_roundtrip(&cfrag));
}

#[test]
fn truncated_and_extended_input_is_rejected() {
    let sk = SecretKey::random();
    let pk = PublicKey::from_secret_key(&sk);
    let (_, capsule, _) = sample_capsule_and_ciphertext();
    let kfrag = sample_kfrag();
    let cfrag = reencrypt(&capsule, &kfrag);
    let signature = Signer::new(&sk).sign(b"m");
    let factory = SecretKeyFactory::random();

    let cases: Vec<Vec<u8>> = vec![
        sk.to_bytes(),
        factory.to_bytes(),
        pk.to_bytes(),
        signature.to_bytes(),
        capsule.to_bytes(),
        kfrag.to_bytes(),
        cfrag.to_bytes(),
    ];
    for bytes in cases {
        let shorter = &bytes[..bytes.len() - 1];
        let mut longer = bytes.clone();
        longer.push(0u8);
        match bytes.len() {
            n if n == SECRET_KEY_SIZE => {
                assert_eq!(SecretKey::from_bytes(shorter).err().unwrap(), Error::TooShortBytes);
                assert_eq!(SecretKey::from_bytes(&longer).err().unwrap(), Error::TooManyBytes);
                assert_eq!(
                    SecretKeyFactory::from_bytes(shorter).err().unwrap(),
                    Error::TooShortBytes
                );
            }
            n if n == PUBLIC_KEY_SIZE => {
                assert_eq!(PublicKey::from_bytes(shorter).err().unwrap(), Error::TooShortBytes);
                assert_eq!(PublicKey::from_bytes(&longer).err().unwrap(), Error::TooManyBytes);
            }
            n if n == SIGNATURE_SIZE => {
                assert_eq!(Signature::from_bytes(shorter).err().unwrap(), Error::TooShortBytes);
                assert_eq!(Signature::from_bytes(&longer).err().unwrap(), Error::TooManyBytes);
            }
            n if n == CAPSULE_SIZE => {
                assert_eq!(Capsule::from_bytes(shorter).err().unwrap(), Error::TooShortBytes);
                assert_eq!(Capsule::from_bytes(&longer).err().unwrap(), Error::TooManyBytes);
            }
            n if n == KEY_FRAG_SIZE => {
                assert_eq!(KeyFrag::from_bytes(shorter).err().unwrap(), Error::TooShortBytes);
                assert_eq!(KeyFrag::from_bytes(&longer).err().unwrap(), Error::TooManyBytes);
            }
            _ => {
                assert_eq!(CapsuleFrag::from_bytes(shorter).err().unwrap(), Error::TooShortBytes);
                assert_eq!(CapsuleFrag::from_bytes(&longer).err().unwrap(), Error::TooManyBytes);
            }
        }
    }
}

#[test]
fn invalid_content_of_exact_width_is_a_construction_failure() {
    let bad_point = vec![0xffu8; PUBLIC_KEY_SIZE];
    assert_eq!(
        PublicKey::from_bytes(&bad_point).err().unwrap(),
        Error::ConstructionFailure(TypeName::PublicKey)
    );
    let over_order_scalar = vec![0xffu8; SECRET_KEY_SIZE];
    assert_eq!(
        SecretKey::from_bytes(&over_order_scalar).err().unwrap(),
        Error::ConstructionFailure(TypeName::SecretKey)
    );
    let bad_capsule = vec![0x11u8; CAPSULE_SIZE];
    assert_eq!(
        Capsule::from_bytes(&bad_capsule).err().unwrap(),
        Error::ConstructionFailure(TypeName::Capsule)
    );
}

#[test]
fn random_secret_keys_differ_and_equality_is_reflexive() {
    let a = SecretKey::random();
    let b = SecretKey::random();
    assert!(!a.equals(&b));
    assert!(a.equals(&a));
    assert!(b.equals(&b));
    assert!(umbral::keys::secret_key_self_equality(&a));
    let fa = SecretKeyFactory::random();
    let fb = SecretKeyFactory::random();
    assert!(!fa.equals(&fb));
    assert!(fa.equals(&fa));
}

#[test]
fn richcmp_answers_equality_and_rejects_ordering() {
    let a = SecretKey::random();
    let b = SecretKey::random();
    assert_eq!(a.richcmp(&a, CompareOp::Eq).unwrap(), true);
    assert_eq!(a.richcmp(&b, CompareOp::Eq).unwrap(), false);
    assert_eq!(a.richcmp(&b, CompareOp::Ne).unwrap(), true);
    let e = a.richcmp(&b, CompareOp::Lt).err().unwrap();
    assert_eq!(e, Error::Unordered(TypeName::SecretKey));
    assert_eq!(e.kind(), ErrorKind::TypeError);
    assert_eq!(e.message(), "SecretKey objects are not ordered");

    let pk = PublicKey::from_secret_key(&a);
    let pk2 = PublicKey::from_secret_key(&a);
    assert_eq!(pk.richcmp(&pk2, CompareOp::Eq).unwrap(), true);
    assert_eq!(
        pk.richcmp(&pk2, CompareOp::Ge).err().unwrap(),
        Error::Unordered(TypeName::PublicKey)
    );
}

#[test]
fn equal_values_hash_equally() {
    let sk = SecretKey::random();
    let pk = PublicKey::from_secret_key(&sk);
    let pk_again = PublicKey::from_secret_key(&sk);
    assert!(pk.equals(&pk_again));
    assert_eq!(pk.hash(), pk_again.hash());

    let decoded = PublicKey::from_bytes(&pk.to_bytes()).unwrap();
    assert_eq!(pk.hash(), decoded.hash());

    let other = PublicKey::from_secret_key(&SecretKey::random());
    assert_ne!(pk.hash(), other.hash());
}

#[test]
fn secret_types_render_an_opaque_placeholder() {
    let sk = SecretKey::random();
    assert_eq!(sk.str_repr(), "SecretKey:...");
    let f = SecretKeyFactory::random();
    assert_eq!(f.str_repr(), "SecretKeyFactory:...");
    let signer = Signer::new(&sk);
    assert_eq!(signer.str_repr(), "Signer:...");
}

#[test]
fn public_types_render_a_hex_fingerprint() {
    let pk = PublicKey::from_secret_key(&SecretKey::random());
    let expected = format!("PublicKey:{}", &hex::encode(pk.to_bytes())[..16]);
    assert_eq!(pk.str_repr(), expected);

    let (_, capsule, _) = sample_capsule_and_ciphertext();
    let expected = format!("Capsule:{}", &hex::encode(capsule.to_bytes())[..16]);
    assert_eq!(capsule.str_repr(), expected);
}

#[test]
fn error_kinds_follow_the_taxonomy() {
    assert_eq!(Error::TooManyBytes.kind(), ErrorKind::ValueError);
    assert_eq!(Error::TooShortBytes.kind(), ErrorKind::ValueError);
    assert_eq!(Error::ConstructionFailure(TypeName::Capsule).kind(), ErrorKind::ValueError);
    assert_eq!(Error::CiphertextTooShort.kind(), ErrorKind::ValueError);
    assert_eq!(Error::NoCapsuleFrags.kind(), ErrorKind::ValueError);
    assert_eq!(Error::MismatchedCapsuleFrags.kind(), ErrorKind::ValueError);
    assert_eq!(Error::RepeatingCapsuleFrags.kind(), ErrorKind::ValueError);
    assert_eq!(Error::InvalidThreshold.kind(), ErrorKind::ValueError);
    assert_eq!(Error::PlaintextTooLarge.kind(), ErrorKind::CryptographicError);
    assert_eq!(Error::ZeroHash.kind(), ErrorKind::CryptographicError);
    assert_eq!(Error::ZeroSecretKey.kind(), ErrorKind::CryptographicError);
    assert_eq!(Error::ValidationFailed.kind(), ErrorKind::CryptographicError);
    assert_eq!(Error::AuthenticationFailed.kind(), ErrorKind::CryptographicError);
    assert_eq!(Error::Unordered(TypeName::Signer).kind(), ErrorKind::TypeError);
}

#[test]
fn error_messages_are_preserved() {
    assert_eq!(Error::TooManyBytes.message(), "The given bytestring is too long");
    assert_eq!(Error::TooShortBytes.message(), "The given bytestring is too short");
    assert_eq!(
        Error::ConstructionFailure(TypeName::KeyFrag).message(),
        "Failed to deserialize a KeyFrag object"
    );
    assert_eq!(Error::PlaintextTooLarge.message(), "Plaintext is too large to encrypt");
    assert_eq!(Error::CiphertextTooShort.message(), "The ciphertext must include the nonce");
    assert_eq!(Error::NoCapsuleFrags.message(), "Empty CapsuleFrag sequence");
    assert_eq!(
        Error::MismatchedCapsuleFrags.message(),
        "CapsuleFrags are not pairwise consistent"
    );
    assert_eq!(Error::RepeatingCapsuleFrags.message(), "Some of the CapsuleFrags are repeated");
    assert_eq!(Error::ZeroHash.message(), "An internally hashed value is zero");
    assert_eq!(Error::ZeroSecretKey.message(), "Resulting secret key is zero");
    assert_eq!(Error::ValidationFailed.message(), "Internal validation failed");
    assert_eq!(
        Error::AuthenticationFailed.message(),
        "Decryption of ciphertext failed: either someone tampered with the ciphertext \
         or you are using an incorrect decryption key."
    );
}
