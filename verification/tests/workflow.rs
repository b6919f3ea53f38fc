//! End-to-end proxy re-encryption workflow tests: encryption, threshold
//! recovery, fragment integrity, tamper detection and signatures.

use umbral::backend::CIPHERTEXT_OVERHEAD;
use umbral::decrypt_original;
use umbral::decrypt_reencrypted;
use umbral::encrypt;
use umbral::generate_kfrags;
use umbral::reencrypt;
use umbral::CapsuleFrag;
use umbral::Error;
use umbral::KeyFrag;
use umbral::PublicKey;
use umbral::SecretKey;
use umbral::SecretKeyFactory;
use umbral::Signer;

struct Delegation {
    delegating_sk: SecretKey,
    delegating_pk: PublicKey,
    receiving_sk: SecretKey,
    receiving_pk: PublicKey,
    signing_pk: PublicKey,
    kfrags: Vec<KeyFrag>,
}

fn delegate(threshold: usize, num_kfrags: usize) -> Delegation {
    let delegating_sk = SecretKey::random();
    let delegating_pk = PublicKey::from_secret_key(&delegating_sk);
    let receiving_sk = SecretKey::random();
    let receiving_pk = PublicKey::from_secret_key(&receiving_sk);
    let signing_sk = SecretKey::random();
    let signing_pk = PublicKey::from_secret_key(&signing_sk);
    let kfrags = generate_kfrags(
        &delegating_sk,
        &receiving_pk,
        &signing_sk,
        threshold,
        num_kfrags,
        true,
        true,
    )
    .unwrap();
    Delegation {
        delegating_sk,
        delegating_pk,
        receiving_sk,
        receiving_pk,
        signing_pk,
        kfrags,
    }
}

#[test]
fn encrypt_decrypt_roundtrip_law_holds() {
    let sk = SecretKey::random();
    assert!(umbral::ops::encrypt_decrypt_roundtrip(&sk, b"round trip"));
}

#[test]
fn generated_fragments_have_nonzero_keys() {
    let d = delegate(2, 3);
    for kfrag in &d.kfrags {
        assert!(kfrag.has_nonzero_key());
    }
}

#[test]
fn encrypt_then_decrypt_original() {
    let sk = SecretKey::random();
    let pk = PublicKey::from_secret_key(&sk);
    let plaintext = b"peace at dawn";
    let (capsule, ciphertext) = encrypt(&pk, plaintext).unwrap();
    assert_eq!(ciphertext.len(), plaintext.len() + CIPHERTEXT_OVERHEAD);
    let recovered = decrypt_original(&sk, &capsule, &ciphertext).unwrap();
    assert_eq!(recovered, plaintext.to_vec());
}

#[test]
fn tampered_ciphertext_fails_authentication() {
    let sk = SecretKey::random();
    let pk = PublicKey::from_secret_key(&sk);
    let (capsule, mut ciphertext) = encrypt(&pk, b"peace at dawn").unwrap();
    let last = ciphertext.len() - 1;
    ciphertext[last] ^= 0x01;
    assert_eq!(
        decrypt_original(&sk, &capsule, &ciphertext).err().unwrap(),
        Error::AuthenticationFailed
    );
}

#[test]
fn wrong_key_fails_authentication() {
    let sk = SecretKey::random();
    let pk = PublicKey::from_secret_key(&sk);
    let (capsule, ciphertext) = encrypt(&pk, b"peace at dawn").unwrap();
    let other = SecretKey::random();
    assert_eq!(
        decrypt_original(&other, &capsule, &ciphertext).err().unwrap(),
        Error::AuthenticationFailed
    );
}

#[test]
fn short_ciphertext_must_include_the_nonce() {
    let sk = SecretKey::random();
    let pk = PublicKey::from_secret_key(&sk);
    let (capsule, _) = encrypt(&pk, b"irrelevant").unwrap();
    let short = vec![0u8; 23];
    assert_eq!(
        decrypt_original(&sk, &capsule, &short).err().unwrap(),
        Error::CiphertextTooShort
    );
}

#[test]
fn threshold_recovery_with_any_three_of_five() {
    let d = delegate(3, 5);
    let plaintext = b"threshold recovery";
    let (capsule, ciphertext) = encrypt(&d.delegating_pk, plaintext).unwrap();

    for picks in [[0usize, 1, 2], [0, 2, 4], [1, 3, 4]] {
        let cfrags: Vec<CapsuleFrag> =
            picks.iter().map(|&i| reencrypt(&capsule, &d.kfrags[i])).collect();
        let recovered = decrypt_reencrypted(
            &d.receiving_sk,
            &d.delegating_pk,
            &capsule,
            &cfrags,
            &ciphertext,
        )
        .unwrap();
        assert_eq!(recovered, plaintext.to_vec());
    }
}

#[test]
fn two_fragments_are_not_enough_for_threshold_three() {
    let d = delegate(3, 5);
    let plaintext = b"threshold recovery";
    let (capsule, ciphertext) = encrypt(&d.delegating_pk, plaintext).unwrap();
    let cfrags: Vec<CapsuleFrag> =
        [0usize, 1].iter().map(|&i| reencrypt(&capsule, &d.kfrags[i])).collect();
    let outcome = decrypt_reencrypted(
        &d.receiving_sk,
        &d.delegating_pk,
        &capsule,
        &cfrags,
        &ciphertext,
    );
    match outcome {
        Ok(recovered) => assert_ne!(recovered, plaintext.to_vec()),
        Err(_) => {}
    }
}

#[test]
fn empty_fragment_set_is_rejected() {
    let d = delegate(2, 3);
    let (capsule, ciphertext) = encrypt(&d.delegating_pk, b"x").unwrap();
    let cfrags: Vec<CapsuleFrag> = Vec::new();
    assert_eq!(
        decrypt_reencrypted(&d.receiving_sk, &d.delegating_pk, &capsule, &cfrags, &ciphertext)
            .err()
            .unwrap(),
        Error::NoCapsuleFrags
    );
}

#[test]
fn repeated_fragments_are_rejected() {
    let d = delegate(2, 3);
    let (capsule, ciphertext) = encrypt(&d.delegating_pk, b"x").unwrap();
    let cfrag = reencrypt(&capsule, &d.kfrags[0]);
    let copy = CapsuleFrag::from_bytes(&cfrag.to_bytes()).unwrap();
    let cfrags = vec![cfrag, copy];
    assert_eq!(
        decrypt_reencrypted(&d.receiving_sk, &d.delegating_pk, &capsule, &cfrags, &ciphertext)
            .err()
            .unwrap(),
        Error::RepeatingCapsuleFrags
    );
}

#[test]
fn fragments_of_different_delegations_are_mismatched() {
    let d1 = delegate(2, 2);
    let d2 = delegate(2, 2);
    let (capsule1, ciphertext1) = encrypt(&d1.delegating_pk, b"x").unwrap();
    let (capsule2, _) = encrypt(&d2.delegating_pk, b"y").unwrap();
    let cfrags = vec![
        reencrypt(&capsule1, &d1.kfrags[0]),
        reencrypt(&capsule2, &d2.kfrags[0]),
    ];
    assert_eq!(
        decrypt_reencrypted(&d1.receiving_sk, &d1.delegating_pk, &capsule1, &cfrags, &ciphertext1)
            .err()
            .unwrap(),
        Error::MismatchedCapsuleFrags
    );
}

#[test]
fn threshold_arguments_are_validated() {
    let d = delegate(1, 1);
    assert_eq!(
        generate_kfrags(&d.delegating_sk, &d.receiving_pk, &d.delegating_sk, 0, 3, true, true)
            .err()
            .unwrap(),
        Error::InvalidThreshold
    );
    assert_eq!(
        generate_kfrags(&d.delegating_sk, &d.receiving_pk, &d.delegating_sk, 4, 3, true, true)
            .err()
            .unwrap(),
        Error::InvalidThreshold
    );
    let kfrags =
        generate_kfrags(&d.delegating_sk, &d.receiving_pk, &d.delegating_sk, 2, 4, false, false)
            .unwrap();
    assert_eq!(kfrags.len(), 4);
}

#[test]
fn key_frag_verification_checks_bindings() {
    let d = delegate(2, 3);
    let kfrag = &d.kfrags[0];
    assert!(kfrag.verify(&d.signing_pk, Some(&d.delegating_pk), Some(&d.receiving_pk)));
    // The fragments were created with both binding flags set, so the
    // bound keys must be supplied.
    assert!(!kfrag.verify(&d.signing_pk, None, Some(&d.receiving_pk)));
    assert!(!kfrag.verify(&d.signing_pk, Some(&d.delegating_pk), None));
    let wrong = PublicKey::from_secret_key(&SecretKey::random());
    assert!(!kfrag.verify(&wrong, Some(&d.delegating_pk), Some(&d.receiving_pk)));
    assert!(!kfrag.verify(&d.signing_pk, Some(&wrong), Some(&d.receiving_pk)));
}

#[test]
fn generated_and_reencrypted_fragments_verify() {
    let delegating_sk = SecretKey::random();
    let receiving_pk = PublicKey::from_secret_key(&SecretKey::random());
    let signing_sk = SecretKey::random();
    assert!(umbral::ops::generated_fragment_verifies(
        &delegating_sk,
        &receiving_pk,
        &signing_sk
    ));
    assert!(umbral::ops::reencrypted_fragment_verifies(
        &delegating_sk,
        &receiving_pk,
        &signing_sk,
        b"bound fragment"
    ));
}

#[test]
fn capsule_frag_verification_checks_bindings() {
    let d = delegate(2, 3);
    let (capsule, _) = encrypt(&d.delegating_pk, b"x").unwrap();
    let cfrag = reencrypt(&capsule, &d.kfrags[0]);
    assert!(cfrag.verify(&capsule, &d.delegating_pk, &d.receiving_pk, &d.signing_pk));
    let wrong = PublicKey::from_secret_key(&SecretKey::random());
    assert!(!cfrag.verify(&capsule, &wrong, &d.receiving_pk, &d.signing_pk));
    assert!(!cfrag.verify(&capsule, &d.delegating_pk, &d.receiving_pk, &wrong));
    let (other_capsule, _) = encrypt(&d.delegating_pk, b"y").unwrap();
    assert!(!cfrag.verify(&other_capsule, &d.delegating_pk, &d.receiving_pk, &d.signing_pk));
}

#[test]
fn signature_verifies_under_the_signers_key_only() {
    let sk = SecretKey::random();
    let signer = Signer::new(&sk);
    let message = b"a signed message";
    let signature = signer.sign(message);
    let vk = signer.verifying_key();
    assert!(signature.verify(&vk, message));
    assert!(!signature.verify(&vk, b"a different message"));
    let other = Signer::new(&SecretKey::random());
    assert!(!signature.verify(&other.verifying_key(), message));
    assert!(umbral::keys::sign_verify_roundtrip(&sk, message));
}

#[test]
fn verifying_key_matches_public_key_derivation() {
    let sk = SecretKey::random();
    let signer = Signer::new(&sk);
    let direct = PublicKey::from_secret_key(&sk);
    assert!(signer.verifying_key().equals(&direct));
    assert!(signer.equals(&Signer::new(&sk)));
    assert!(!signer.equals(&Signer::new(&SecretKey::random())));
}

#[test]
fn labels_derive_deterministic_keys() {
    let factory = SecretKeyFactory::random();
    let a = factory.secret_key_by_label(b"alice").unwrap();
    let a_again = factory.secret_key_by_label(b"alice").unwrap();
    let b = factory.secret_key_by_label(b"bob").unwrap();
    assert!(a.equals(&a_again));
    assert!(!a.equals(&b));
    let other_factory = SecretKeyFactory::random();
    let a_other = other_factory.secret_key_by_label(b"alice").unwrap();
    assert!(!a.equals(&a_other));
}
