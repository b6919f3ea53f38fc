//! Shared identity behaviors composed into each wrapper type: byte-wise
//! equality of canonical serializations, and the equality-only rich
//! comparison protocol.

use vstd::prelude::*;

use crate::errors::Error;
use crate::errors::TypeName;

verus! {

/// A comparison requested by the host.
#[derive(Clone, Copy, PartialEq, Eq, Structural, Debug)]
pub enum CompareOp {
    Lt,
    Le,
    Eq,
    Ne,
    Gt,
    Ge,
}

/// Byte-wise equality of two byte strings.
pub fn compare_bytes(a: &[u8], b: &[u8]) -> (r: bool)
    ensures
        r == (a@ == b@),
{
    if a.len() != b.len() {
        return false;
    }
    let mut i: usize = 0;
    while i < a.len()
        invariant
            0 <= i <= a@.len(),
            a@.len() == b@.len(),
            forall|j: int| 0 <= j < i ==> a@[j] == b@[j],
        decreases a@.len() - i,
    {
        if a[i] != b[i] {
            return false;
        }
        i += 1;
    }
    proof {
        assert(a@ =~= b@);
    }
    true
}

/// The outcome the rich comparison protocol owes for each operation:
/// equality and inequality are answered from structural equality, and
/// any ordering comparison fails because the objects are not ordered.
pub open spec fn richcmp_spec(t: TypeName, equal: bool, op: CompareOp) -> Result<bool, Error> {
    match op {
        CompareOp::Eq => Ok(equal),
        CompareOp::Ne => Ok(!equal),
        _ => Err(Error::Unordered(t)),
    }
}

/// Answers a rich comparison for a type whose values compare equal
/// exactly when `equal` holds.
pub fn richcmp_from_equality(t: TypeName, equal: bool, op: CompareOp) -> (r: Result<bool, Error>)
    ensures
        r == richcmp_spec(t, equal, op),
{
    match op {
        CompareOp::Eq => Ok(equal),
        CompareOp::Ne => Ok(!equal),
        _ => Err(Error::Unordered(t)),
    }
}

/// The error a deserialization owes when the input's length differs
/// from the type's fixed width: too many bytes, too few, or none.
pub open spec fn width_check_spec(len: nat, expected: nat) -> Option<Error> {
    if len > expected {
        Some(Error::TooManyBytes)
    } else if len < expected {
        Some(Error::TooShortBytes)
    } else {
        None
    }
}

/// Checks an input length against a type's fixed serialized width.
pub fn check_width(len: usize, expected: usize) -> (r: Option<Error>)
    ensures
        r == width_check_spec(len as nat, expected as nat),
{
    if len > expected {
        Some(Error::TooManyBytes)
    } else if len < expected {
        Some(Error::TooShortBytes)
    } else {
        None
    }
}

} // verus!
