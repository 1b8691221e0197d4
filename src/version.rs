use vstd::prelude::*;

use semver::Version;

verus! {

/// semver's `Version`, carried as an opaque value.
#[verifier::external_type_specification]
#[verifier::external_body]
pub struct ExVersion(semver::Version);

/// Whether the lenient version grammar accepts `s`.
pub uninterp spec fn lenient_version_ok(s: Seq<char>) -> bool;

/// Relies on `lenient_semver::parse`: it reads a version in the lenient
/// grammar (missing minor or patch, a leading `v`, and the like), and whether
/// it succeeds depends on the text alone.
#[verifier::external_body]
fn parse_lenient(text: &str) -> (r: Option<Version>)
    ensures
        r is Some <==> lenient_version_ok(text@),
{
    lenient_semver::parse(text).ok()
}

/// Reads the host's own version from its full version string, which need
/// not be strict semver.
pub fn init_ver(full: &str) -> (r: Option<Version>)
    ensures
        r is Some <==> lenient_version_ok(full@),
{
    parse_lenient(full)
}

} // verus!
