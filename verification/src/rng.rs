//! Random text, for seeds and room codes.
use rand::distributions::DistString;
use vstd::prelude::*;

verus! {

/// An ASCII letter or digit.
pub open spec fn is_ascii_alphanumeric(c: char) -> bool {
    ('a' <= c && c <= 'z') || ('A' <= c && c <= 'Z') || ('0' <= c && c <= '9')
}

/// Text made only of ASCII letters and digits.
pub open spec fn is_alphanumeric_text(s: Seq<char>) -> bool {
    forall|i: int| 0 <= i < s.len() ==> is_ascii_alphanumeric(#[trigger] s[i])
}

/// Calls `rand::distributions::Alphanumeric.sample_string` with `rand::thread_rng()`.
/// rand documents that this appends `len` characters, each sampled from
/// `A-Z`, `a-z` and `0-9`; which characters come out is left to chance and is
/// not stated.
#[verifier::external_body]
pub(crate) fn random_alphanumeric(len: usize) -> (r: String)
    ensures
        r@.len() == len,
        is_alphanumeric_text(r@),
{
    rand::distributions::Alphanumeric.sample_string(&mut rand::thread_rng(), len)
}

} // verus!
