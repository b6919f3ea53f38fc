//! Human-readable representations: a truncated hexadecimal content
//! fingerprint for the public-bearing types, and an opaque placeholder
//! for the secret-bearing ones.

use vstd::prelude::*;
use vstd::string::StrSliceExecFns;
use vstd::string::StringExecFns;

use crate::backend::backend_hex_encode;
use crate::errors::name_seq;
use crate::errors::TypeName;

verus! {

/// The lowercase hexadecimal digit for a value below sixteen.
pub open spec fn hex_digit(n: u8) -> char {
    "0123456789abcdef"@[n as int]
}

/// The lowercase hexadecimal encoding of a byte string: two digits for
/// each byte, high nibble first.
pub open spec fn hex_seq(s: Seq<u8>) -> Seq<char> {
    Seq::new(
        s.len() * 2,
        |i: int|
            if i % 2 == 0 {
                hex_digit(s[i / 2] / 16)
            } else {
                hex_digit(s[i / 2] % 16)
            },
    )
}

/// The representation of a public-bearing value: the type name, a colon,
/// and the first sixteen hexadecimal characters of its serialization —
/// a non-reversible content fingerprint.
pub open spec fn public_repr_spec(t: TypeName, ser: Seq<u8>) -> Seq<char> {
    name_seq(t) + ":"@ + hex_seq(ser).take(16)
}

/// The representation of a secret-bearing value: the type name and an
/// opaque placeholder, so that no secret material reaches a log.
pub open spec fn secret_repr_spec(t: TypeName) -> Seq<char> {
    name_seq(t) + ":..."@
}

/// Renders the truncated content fingerprint of a public-bearing value
/// from its serialization.
pub fn public_repr_string(t: TypeName, ser: &[u8]) -> (r: String)
    requires
        ser@.len() >= 8,
    ensures
        r@ == public_repr_spec(t, ser@),
{
    let h = backend_hex_encode(ser);
    let prefix = h.as_str().substring_char(0, 16);
    proof {
        assert(prefix@ =~= hex_seq(ser@).take(16));
    }
    String::from_str(t.as_str()).concat(":").concat(prefix)
}

/// Renders the opaque placeholder of a secret-bearing value.
pub fn secret_repr_string(t: TypeName) -> (r: String)
    ensures
        r@ == secret_repr_spec(t),
{
    String::from_str(t.as_str()).concat(":...")
}

} // verus!
