//! The five top-level proxy re-encryption operations. Each delegates the
//! cryptography to the backend while owning parameter marshaling and the
//! translation of backend failures into the flat error taxonomy.

use vstd::prelude::*;

use crate::backend;
use crate::backend::CAPSULE_FRAG_SIZE;
use crate::backend::CIPHERTEXT_OVERHEAD;
use crate::backend::NONCE_SIZE;
use crate::errors::reencryption_error_spec;
use crate::errors::translate_decryption_failure;
use crate::errors::translate_reencryption_failure;
use crate::errors::Error;
use crate::fragments::Capsule;
use crate::fragments::CapsuleFrag;
use crate::fragments::KeyFrag;
use crate::identity;
use crate::keys::PublicKey;
use crate::keys::SecretKey;

verus! {

/// Encrypts the plaintext under the given public key, returning the
/// capsule and the ciphertext: a random nonce prefix followed by the
/// authenticated encryption of the plaintext. Succeeds exactly when the
/// plaintext is within the cipher's bound.
pub fn encrypt(pk: &PublicKey, plaintext: &[u8]) -> (r: Result<(Capsule, Vec<u8>), Error>)
    ensures
        r is Ok <==> backend::plaintext_fits(plaintext@.len()),
        r matches Ok(p) ==> (p.1)@.len() == plaintext@.len() + CIPHERTEXT_OVERHEAD,
        r matches Ok(p) ==> !(p.0).opening_degenerate(),
        r matches Ok(p) ==> forall|skb: Seq<u8>|
            #[trigger] backend::pk_of(skb) == pk.repr() ==> backend::decrypted_original(
                skb,
                (p.0).repr(),
                (p.1)@,
            ) == Some(plaintext@),
        r is Err ==> r->Err_0 == Error::PlaintextTooLarge,
{
    match backend::backend_encrypt(&pk.inner, plaintext) {
        Some((c, ct)) => Ok((Capsule { inner: c }, ct)),
        None => Err(Error::PlaintextTooLarge),
    }
}

/// Decrypts a ciphertext for the original key-pair owner: the result is
/// the deterministic decryption of the inputs. The ciphertext is
/// rejected as too short exactly when it cannot contain the nonce
/// prefix; any other failure is an authentication failure. A degenerate
/// capsule — one whose points sum to the identity, which no encryption
/// produces and the backend cannot serialize — is excluded.
pub fn decrypt_original(sk: &SecretKey, capsule: &Capsule, ciphertext: &[u8]) -> (r: Result<
    Vec<u8>,
    Error,
>)
    requires
        !capsule.opening_degenerate(),
    ensures
        (r is Err && r->Err_0 == Error::CiphertextTooShort) <==> ciphertext@.len() < NONCE_SIZE,
        ciphertext@.len() >= NONCE_SIZE ==> (r is Ok <==> backend::decrypted_original(
            sk.repr(),
            capsule.repr(),
            ciphertext@,
        ) is Some),
        r is Ok ==> r->Ok_0@ == backend::decrypted_original(
            sk.repr(),
            capsule.repr(),
            ciphertext@,
        )->0,
        r is Err ==> (r->Err_0 == Error::CiphertextTooShort || r->Err_0
            == Error::AuthenticationFailed),
{
    match backend::backend_decrypt_original(&sk.inner, &capsule.inner, ciphertext) {
        Ok(p) => Ok(p),
        Err(f) => Err(translate_decryption_failure(f)),
    }
}

/// Creates `num_kfrags` re-encryption key fragments of the delegating
/// key toward the receiving key, signed by the signing key; any
/// `threshold`-sized subset suffices for decryption by the receiving
/// party. The threshold must be at least 1 and at most `num_kfrags`;
/// a violation is rejected as a value error.
pub fn generate_kfrags(
    delegating_sk: &SecretKey,
    receiving_pk: &PublicKey,
    signing_sk: &SecretKey,
    threshold: usize,
    num_kfrags: usize,
    sign_delegating_key: bool,
    sign_receiving_key: bool,
) -> (r: Result<Vec<KeyFrag>, Error>)
    ensures
        r is Err <==> !(1 <= threshold <= num_kfrags),
        r is Err ==> r->Err_0 == Error::InvalidThreshold,
        r matches Ok(v) ==> v@.len() == num_kfrags,
        r matches Ok(v) ==> forall|i: int|
            0 <= i < v@.len() ==> backend::kfrag_valid(
                (#[trigger] v@[i]).repr(),
                backend::pk_of(signing_sk.repr()),
                Some(backend::pk_of(delegating_sk.repr())),
                Some(receiving_pk.repr()),
            ),
        r matches Ok(v) ==> forall|i: int|
            0 <= i < v@.len() ==> backend::kfrag_receiver_valid(
                (#[trigger] v@[i]).repr(),
                backend::pk_of(signing_sk.repr()),
                backend::pk_of(delegating_sk.repr()),
                receiving_pk.repr(),
            ),
        r matches Ok(v) ==> forall|i: int, j: int|
            0 <= i < v@.len() && 0 <= j < v@.len() ==> (#[trigger] v@[i]).repr().subrange(64, 97)
                == (#[trigger] v@[j]).repr().subrange(64, 97),
{
    if threshold < 1 || threshold > num_kfrags {
        return Err(Error::InvalidThreshold);
    }
    let signer = backend::backend_signer_new(&signing_sk.inner);
    let mut raw = backend::backend_generate_kfrags(
        &delegating_sk.inner,
        &receiving_pk.inner,
        &signer,
        threshold,
        num_kfrags,
        sign_delegating_key,
        sign_receiving_key,
    );
    let ghost valid = |b: Seq<u8>|
        backend::kfrag_valid(
            b,
            backend::pk_of(signing_sk.repr()),
            Some(backend::pk_of(delegating_sk.repr())),
            Some(receiving_pk.repr()),
        ) && backend::kfrag_receiver_valid(
            b,
            backend::pk_of(signing_sk.repr()),
            backend::pk_of(delegating_sk.repr()),
            receiving_pk.repr(),
        );
    let ghost shared_precursor = backend::kfrag_bytes(raw@[0]).subrange(64, 97);
    let mut out: Vec<KeyFrag> = Vec::new();
    while raw.len() > 0
        invariant
            out@.len() + raw@.len() == num_kfrags,
            forall|i: int| 0 <= i < raw@.len() ==> valid(backend::kfrag_bytes(#[trigger] raw@[i])),
            forall|i: int| 0 <= i < out@.len() ==> valid((#[trigger] out@[i]).repr()),
            forall|i: int|
                0 <= i < raw@.len() ==> backend::kfrag_bytes(#[trigger] raw@[i]).subrange(64, 97)
                    == shared_precursor,
            forall|i: int|
                0 <= i < out@.len() ==> (#[trigger] out@[i]).repr().subrange(64, 97)
                    == shared_precursor,
        decreases raw@.len(),
    {
        let k = raw.pop().unwrap();
        out.push(KeyFrag { inner: k });
    }
    Ok(out)
}

/// Transforms a capsule under one key fragment into a capsule fragment
/// carrying the fragment's id and precursor. The produced fragment
/// verifies against this capsule under exactly the keys for which the
/// key fragment carries a valid receiver-facing signature; the
/// transform binds no caller-supplied metadata. A fragment whose key
/// scalar is zero — checkable with [`KeyFrag::has_nonzero_key`] — is
/// excluded: the backend cannot serialize the identity points it would
/// produce. The fragment is otherwise trusted to have been verified by
/// the caller, as with any fragment received from a trusted store.
pub fn reencrypt(capsule: &Capsule, kfrag: &KeyFrag) -> (r: CapsuleFrag)
    requires
        !backend::kfrag_key_is_zero(kfrag.repr()),
    ensures
        r.repr().len() == CAPSULE_FRAG_SIZE,
        backend::cfrag_id_of(r.repr()) == kfrag.repr().subrange(0, 32),
        backend::cfrag_precursor_of(r.repr()) == kfrag.repr().subrange(64, 97),
        forall|vk: Seq<u8>, d: Seq<u8>, rk: Seq<u8>|
            #[trigger] backend::kfrag_receiver_valid(kfrag.repr(), vk, d, rk)
                ==> backend::cfrag_valid(r.repr(), capsule.repr(), vk, d, rk),
        !capsule.opening_degenerate() ==> forall|sk: umbral_pre::SecretKey|
            !backend::combination_degenerate(sk, #[trigger] seq![r.repr()]),
{
    CapsuleFrag { inner: backend::backend_reencrypt(&capsule.inner, &kfrag.inner) }
}

/// Whether combining these fragments under this key passes the
/// backend's fragment checks yet reconstructs the identity point, the
/// one value the backend cannot serialize. No set of honestly
/// re-encrypted fragments of one capsule has this shape.
pub open(crate) spec fn degenerate_combination(sk: &SecretKey, cfrags: Seq<CapsuleFrag>) -> bool {
    backend::combination_degenerate(sk.inner, cfrags.map_values(|c: CapsuleFrag| c.repr()))
}

/// Combines the capsule fragments to reconstruct the session key, then
/// decrypts the ciphertext for the receiving party: the result is the
/// deterministic outcome of the inputs, flattened into the taxonomy.
/// An empty fragment set is rejected; a set whose precursors disagree
/// is rejected as mismatched, exactly; a consistent set with a repeated
/// fragment id is rejected as repeating; a too-short ciphertext is only
/// reported once combination itself succeeded. A degenerate
/// combination — crafted fragments that pass every check yet
/// reconstruct the identity, which the backend cannot serialize — is
/// excluded.
pub fn decrypt_reencrypted(
    decrypting_sk: &SecretKey,
    delegating_pk: &PublicKey,
    capsule: &Capsule,
    cfrags: &[CapsuleFrag],
    ciphertext: &[u8],
) -> (r: Result<Vec<u8>, Error>)
    requires
        !degenerate_combination(decrypting_sk, cfrags@),
    ensures
        match backend::reencrypted_outcome(
            decrypting_sk.repr(),
            delegating_pk.repr(),
            capsule.repr(),
            cfrags@.map_values(|c: CapsuleFrag| c.repr()),
            ciphertext@,
        ) {
            Ok(p) => r is Ok && r->Ok_0@ == p,
            Err(f) => r is Err && r->Err_0 == reencryption_error_spec(f),
        },
        cfrags@.len() == 0 ==> r is Err && r->Err_0 == Error::NoCapsuleFrags,
        cfrags@.len() > 0 && (exists|i: int|
            0 <= i < cfrags@.len() && backend::cfrag_precursor_of(
                (#[trigger] cfrags@[i]).repr(),
            ) != backend::cfrag_precursor_of(cfrags@[0].repr())) ==> r is Err && r->Err_0
            == Error::MismatchedCapsuleFrags,
        cfrags@.len() > 0 && (forall|i: int|
            0 <= i < cfrags@.len() ==> backend::cfrag_precursor_of((#[trigger] cfrags@[i]).repr())
                == backend::cfrag_precursor_of(cfrags@[0].repr())) && r is Err ==> r->Err_0
            != Error::MismatchedCapsuleFrags,
        cfrags@.len() > 0 && (forall|i: int|
            0 <= i < cfrags@.len() ==> backend::cfrag_precursor_of((#[trigger] cfrags@[i]).repr())
                == backend::cfrag_precursor_of(cfrags@[0].repr())) && (exists|i: int, j: int|
            0 <= i < j < cfrags@.len() && backend::cfrag_id_of((#[trigger] cfrags@[i]).repr())
                == backend::cfrag_id_of((#[trigger] cfrags@[j]).repr())) ==> r is Err && r->Err_0
            == Error::RepeatingCapsuleFrags,
        r is Err ==> (r->Err_0 == Error::NoCapsuleFrags || r->Err_0
            == Error::MismatchedCapsuleFrags || r->Err_0 == Error::RepeatingCapsuleFrags
            || r->Err_0 == Error::ZeroHash || r->Err_0 == Error::ValidationFailed || r->Err_0
            == Error::CiphertextTooShort || r->Err_0 == Error::AuthenticationFailed),
        ciphertext@.len() >= NONCE_SIZE && r is Err ==> r->Err_0 != Error::CiphertextTooShort,
{
    let mut raw: Vec<umbral_pre::CapsuleFrag> = Vec::new();
    let mut i: usize = 0;
    while i < cfrags.len()
        invariant
            0 <= i <= cfrags@.len(),
            raw@.len() == i,
            forall|j: int|
                0 <= j < i ==> backend::cfrag_bytes(#[trigger] raw@[j]) == cfrags@[j].repr(),
        decreases cfrags@.len() - i,
    {
        raw.push(backend::backend_cfrag_clone(&cfrags[i].inner));
        i += 1;
    }
    proof {
        assert(raw@.map_values(|c: umbral_pre::CapsuleFrag| backend::cfrag_bytes(c))
            =~= cfrags@.map_values(|c: CapsuleFrag| c.repr()));
    }
    let outcome = backend::backend_decrypt_reencrypted(
        &decrypting_sk.inner,
        &delegating_pk.inner,
        &capsule.inner,
        &raw,
        ciphertext,
    );
    proof {
        if cfrags@.len() > 0 {
            if exists|i: int|
                0 <= i < cfrags@.len() && backend::cfrag_precursor_of(
                    (#[trigger] cfrags@[i]).repr(),
                ) != backend::cfrag_precursor_of(cfrags@[0].repr()) {
                let i = choose|i: int|
                    0 <= i < cfrags@.len() && backend::cfrag_precursor_of(
                        (#[trigger] cfrags@[i]).repr(),
                    ) != backend::cfrag_precursor_of(cfrags@[0].repr());
                assert(backend::cfrag_precursor_of(backend::cfrag_bytes(raw@[i]))
                    != backend::cfrag_precursor_of(backend::cfrag_bytes(raw@[0])));
            }
            if forall|i: int|
                0 <= i < cfrags@.len() ==> backend::cfrag_precursor_of(
                    (#[trigger] cfrags@[i]).repr(),
                ) == backend::cfrag_precursor_of(cfrags@[0].repr()) {
                assert forall|i: int|
                    0 <= i < raw@.len() implies backend::cfrag_precursor_of(
                    #[trigger] backend::cfrag_bytes(raw@[i]),
                ) == backend::cfrag_precursor_of(backend::cfrag_bytes(raw@[0])) by {
                    assert(backend::cfrag_bytes(raw@[i]) == cfrags@[i].repr());
                }
                if exists|i: int, j: int|
                    0 <= i < j < cfrags@.len() && backend::cfrag_id_of(
                        (#[trigger] cfrags@[i]).repr(),
                    ) == backend::cfrag_id_of((#[trigger] cfrags@[j]).repr()) {
                    let (i, j) = choose|i: int, j: int|
                        0 <= i < j < cfrags@.len() && backend::cfrag_id_of(
                            (#[trigger] cfrags@[i]).repr(),
                        ) == backend::cfrag_id_of((#[trigger] cfrags@[j]).repr());
                    assert(backend::cfrag_id_of(backend::cfrag_bytes(raw@[i]))
                        == backend::cfrag_id_of(backend::cfrag_bytes(raw@[j])));
                }
            }
        }
    }
    match outcome {
        Ok(p) => Ok(p),
        Err(f) => Err(translate_reencryption_failure(f)),
    }
}

/// A key fragment produced by delegation verifies under the signing
/// key, the delegating key and the receiving key it was made for.
pub fn generated_fragment_verifies(
    delegating_sk: &SecretKey,
    receiving_pk: &PublicKey,
    signing_sk: &SecretKey,
) -> (r: bool)
    ensures
        r,
{
    let signing_pk = PublicKey::from_secret_key(signing_sk);
    let delegating_pk = PublicKey::from_secret_key(delegating_sk);
    match generate_kfrags(delegating_sk, receiving_pk, signing_sk, 1, 1, true, true) {
        Ok(kfrags) => {
            if kfrags.len() == 1 {
                kfrags[0].verify(&signing_pk, Some(&delegating_pk), Some(receiving_pk))
            } else {
                false
            }
        },
        Err(_) => false,
    }
}

/// A capsule fragment produced by re-encrypting a capsule under a
/// generated key fragment verifies against that capsule and the
/// delegating, receiving and signing keys of the delegation. The one
/// fragment a delegation cannot re-encrypt under — a zero key scalar —
/// is passed over.
pub fn reencrypted_fragment_verifies(
    delegating_sk: &SecretKey,
    receiving_pk: &PublicKey,
    signing_sk: &SecretKey,
    plaintext: &[u8],
) -> (r: bool)
    requires
        backend::plaintext_fits(plaintext@.len()),
    ensures
        r,
{
    let delegating_pk = PublicKey::from_secret_key(delegating_sk);
    let signing_pk = PublicKey::from_secret_key(signing_sk);
    let encrypted = match encrypt(&delegating_pk, plaintext) {
        Ok(p) => p,
        Err(_) => {
            return false;
        },
    };
    let capsule = encrypted.0;
    match generate_kfrags(delegating_sk, receiving_pk, signing_sk, 1, 1, true, true) {
        Ok(kfrags) => {
            if kfrags.len() == 1 && kfrags[0].has_nonzero_key() {
                let cfrag = reencrypt(&capsule, &kfrags[0]);
                cfrag.verify(&capsule, &delegating_pk, receiving_pk, &signing_pk)
            } else {
                true
            }
        },
        Err(_) => false,
    }
}

/// Round trip through one key pair: decrypting what encryption produced,
/// with the matching secret key, recovers the plaintext exactly.
pub fn encrypt_decrypt_roundtrip(sk: &SecretKey, plaintext: &[u8]) -> (r: bool)
    requires
        backend::plaintext_fits(plaintext@.len()),
    ensures
        r,
{
    let pk = PublicKey::from_secret_key(sk);
    match encrypt(&pk, plaintext) {
        Ok(p) => {
            let capsule = p.0;
            let ciphertext = p.1;
            match decrypt_original(sk, &capsule, ciphertext.as_slice()) {
                Ok(m) => identity::compare_bytes(m.as_slice(), plaintext),
                Err(_) => false,
            }
        },
        Err(_) => false,
    }
}

} // verus!
