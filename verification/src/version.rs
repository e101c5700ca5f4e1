//! Semantic versions, parsed and compared by the `semver` crate.
use vstd::prelude::*;

verus! {

#[verifier::external_type_specification]
#[verifier::external_body]
pub struct ExSemverVersion(semver::Version);

/// Whether `semver::Version::parse` accepts the text.
pub uninterp spec fn semver_accepts(text: Seq<char>) -> bool;

/// How `semver::Version::cmp` orders the versions that the two texts read as:
/// `-1` for less, `0` for equal, `1` for greater.
pub uninterp spec fn semver_order(a: Seq<char>, b: Seq<char>) -> int;

/// A version read by `semver`, with the text it reads as.
pub struct SemVersion {
    inner: semver::Version,
    text: Ghost<Seq<char>>,
}

impl View for SemVersion {
    type V = Seq<char>;

    /// A text that `semver` reads as this version.
    closed spec fn view(&self) -> Seq<char> {
        self.text@
    }
}

/// Calls `semver::Version::parse`. Claimed: it succeeds exactly on the texts
/// that `semver` accepts, and the version it gives reads as the text. What the
/// version holds is not stated.
#[verifier::external_body]
pub(crate) fn parse_version(text: &str) -> (r: Option<SemVersion>)
    ensures
        r is Some == semver_accepts(text@),
        r matches Some(v) ==> v@ == text@,
{
    match semver::Version::parse(text) {
        Ok(v) => Some(SemVersion { inner: v, text: Ghost(text@) }),
        Err(_) => None,
    }
}

/// Calls `semver::Version::new(0, 0, 0)`. Claimed: the version reads as
/// `0.0.0`, the text that `semver` parses to that same version.
#[verifier::external_body]
pub(crate) fn zero_version() -> (r: SemVersion)
    ensures
        r@ == "0.0.0"@,
{
    SemVersion { inner: semver::Version::new(0, 0, 0), text: Ghost("0.0.0"@) }
}

/// Calls `semver::Version::cmp` (the order that `<` on versions also uses).
/// Claimed: the result is the order of the two versions' texts, as `-1`, `0`
/// or `1`.
#[verifier::external_body]
pub(crate) fn version_order(a: &SemVersion, b: &SemVersion) -> (r: i8)
    ensures
        r == semver_order(a@, b@),
        -1 <= r <= 1,
{
    match a.inner.cmp(&b.inner) {
        std::cmp::Ordering::Less => -1,
        std::cmp::Ordering::Equal => 0,
        std::cmp::Ordering::Greater => 1,
    }
}

} // verus!
