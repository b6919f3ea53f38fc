//! Content-derived hashing for the public-bearing types.
//!
//! The hash is computed over the pair of the type name and the value's
//! canonical serialization, so equal values of one type hash equally
//! and values of different types are kept apart.

use vstd::prelude::*;
use vstd::string::StrSliceExecFns;

use crate::errors::name_seq;
use crate::errors::TypeName;

verus! {

/// The starting state of the 64-bit FNV-1a hash.
pub const FNV_OFFSET_BASIS: u64 = 0xcbf29ce484222325;

/// The multiplier of the 64-bit FNV-1a hash.
pub const FNV_PRIME: u64 = 0x100000001b3;

/// The display name of a type as ASCII bytes.
pub open spec fn name_bytes(t: TypeName) -> Seq<u8> {
    Seq::new(name_seq(t).len(), |i: int| name_seq(t)[i] as u8)
}

/// The byte string the hash is computed over: the type name, a colon,
/// and the value's canonical serialization.
pub open spec fn hash_input_spec(t: TypeName, ser: Seq<u8>) -> Seq<u8> {
    name_bytes(t) + seq![58u8] + ser
}

/// The 64-bit FNV-1a hash of a byte string.
pub open spec fn fnv1a(s: Seq<u8>) -> u64
    decreases s.len(),
{
    if s.len() == 0 {
        FNV_OFFSET_BASIS
    } else {
        (fnv1a(s.drop_last()) ^ (s.last() as u64)).wrapping_mul(FNV_PRIME)
    }
}

/// The content-derived hash of a value of a public-bearing type.
pub open spec fn content_hash_spec(t: TypeName, ser: Seq<u8>) -> u64 {
    fnv1a(hash_input_spec(t, ser))
}

/// Hash consistency: the hash is a function of the type and the
/// canonical serialization alone, so equal values hash equally.
pub proof fn lemma_hash_consistency(t: TypeName, a: Seq<u8>, b: Seq<u8>)
    requires
        a == b,
    ensures
        content_hash_spec(t, a) == content_hash_spec(t, b),
{
}

/// The display name of a type as ASCII bytes.
fn type_name_bytes(t: TypeName) -> (r: Vec<u8>)
    ensures
        r@ == name_bytes(t),
{
    let name = t.as_str();
    let r = name.as_bytes_vec();
    proof {
        broadcast use vstd::string::is_ascii_spec_bytes;

        reveal_strlit("SecretKey");
        reveal_strlit("SecretKeyFactory");
        reveal_strlit("PublicKey");
        reveal_strlit("Signer");
        reveal_strlit("Signature");
        reveal_strlit("Capsule");
        reveal_strlit("KeyFrag");
        reveal_strlit("CapsuleFrag");
        assert(vstd::string::is_ascii(name));
        assert(r@ =~= name_bytes(t));
    }
    r
}

/// Computes the 64-bit FNV-1a hash of a byte string.
fn fnv1a_bytes(s: &[u8]) -> (r: u64)
    ensures
        r == fnv1a(s@),
{
    let mut acc: u64 = FNV_OFFSET_BASIS;
    let mut i: usize = 0;
    proof {
        assert(s@.take(0) =~= Seq::<u8>::empty());
    }
    while i < s.len()
        invariant
            0 <= i <= s@.len(),
            acc == fnv1a(s@.take(i as int)),
        decreases s@.len() - i,
    {
        acc = (acc ^ (s[i] as u64)).wrapping_mul(FNV_PRIME);
        proof {
            assert(s@.take(i + 1).drop_last() =~= s@.take(i as int));
            assert(s@.take(i + 1).last() == s@[i as int]);
        }
        i += 1;
    }
    proof {
        assert(s@.take(s@.len() as int) =~= s@);
    }
    acc
}

/// Computes the content-derived hash of a value of a public-bearing
/// type from its canonical serialization.
pub fn content_hash(t: TypeName, ser: &[u8]) -> (r: u64)
    ensures
        r == content_hash_spec(t, ser@),
{
    let mut input = type_name_bytes(t);
    input.push(58u8);
    let mut j: usize = 0;
    proof {
        assert(input@ =~= name_bytes(t) + seq![58u8] + ser@.take(0));
    }
    while j < ser.len()
        invariant
            0 <= j <= ser@.len(),
            input@ == name_bytes(t) + seq![58u8] + ser@.take(j as int),
        decreases ser@.len() - j,
    {
        input.push(ser[j]);
        proof {
            assert(name_bytes(t) + seq![58u8] + ser@.take(j + 1) =~= (name_bytes(t) + seq![58u8]
                + ser@.take(j as int)).push(ser@[j as int]));
        }
        j += 1;
    }
    proof {
        assert(ser@.take(ser@.len() as int) =~= ser@);
        assert(input@ =~= hash_input_spec(t, ser@));
    }
    fnv1a_bytes(input.as_slice())
}

} // verus!
