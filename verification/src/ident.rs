//! Identities and bounded text fields shared by both engines.

use vstd::prelude::*;
use vstd::string::StringSliceAdditionalSpecFns;

verus! {

/// A 256-bit account identity (an asymmetric-key identifier), held as four
/// 64-bit words. The engines only ever compare identities for equality; the
/// hosting runtime is responsible for authenticating that the signer of a
/// request really controls the named identity.
#[derive(PartialEq, Eq, Structural, Clone, Copy, Debug)]
pub struct Pubkey {
    pub w0: u64,
    pub w1: u64,
    pub w2: u64,
    pub w3: u64,
}

/// The UTF-8 byte length of a text value. Every length bound on an
/// identifier, comment or metadata field is a bound on this quantity.
pub open spec fn byte_len(s: Seq<char>) -> nat {
    vstd::utf8::encode_utf8(s).len()
}

/// The view of an optional text value.
pub open spec fn opt_view(o: Option<String>) -> Option<Seq<char>> {
    match o {
        Some(s) => Some(s@),
        None => None,
    }
}

/// The UTF-8 byte length of an optional text value; an absent value has
/// length zero.
pub open spec fn opt_byte_len(o: Option<Seq<char>>) -> nat {
    match o {
        Some(s) => byte_len(s),
        None => 0,
    }
}

/// Returns the UTF-8 byte length of `s`.
pub fn text_byte_len(s: &str) -> (n: usize)
    ensures
        n == byte_len(s@),
{
    s.as_bytes().len()
}

} // verus!
