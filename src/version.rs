//! Semantic versions and version requirements, and the test of one against
//! the other.
//!
//! Both keep the text they were parsed from, which is their view, beside the
//! value that `semver` parsed from it. The fields are private and are only
//! ever set together, from one text, so the parsed value is a function of the
//! view.

use semver::Error as SemverError;
use semver::Version as SemverVersion;
use semver::VersionReq as SemverVersionReq;
use vstd::prelude::*;

verus! {

#[verifier::external_type_specification]
#[verifier::external_body]
pub struct ExSemverVersion(SemverVersion);

#[verifier::external_type_specification]
#[verifier::external_body]
pub struct ExSemverVersionReq(SemverVersionReq);

#[verifier::external_type_specification]
#[verifier::external_body]
pub struct ExSemverError(SemverError);

/// Whether `semver` accepts a text as a version.
pub uninterp spec fn parses_as_version(text: Seq<char>) -> bool;

/// Whether `semver` accepts a text as a version requirement.
pub uninterp spec fn parses_as_requirement(text: Seq<char>) -> bool;

/// Whether the version written `version` satisfies the requirement written
/// `requirement`, by semver's rules.
pub uninterp spec fn requirement_matches(requirement: Seq<char>, version: Seq<char>) -> bool;

/// Relies on `semver::Version::parse`: whether it succeeds depends on the
/// text alone.
#[verifier::external_body]
fn semver_parse_version(text: &str) -> (r: Result<SemverVersion, SemverError>)
    ensures
        r is Ok <==> parses_as_version(text@),
{
    SemverVersion::parse(text)
}

/// Relies on `semver::VersionReq::parse`: whether it succeeds depends on the
/// text alone.
#[verifier::external_body]
fn semver_parse_requirement(text: &str) -> (r: Result<SemverVersionReq, SemverError>)
    ensures
        r is Ok <==> parses_as_requirement(text@),
{
    SemverVersionReq::parse(text)
}

/// `semver::Version` is cloned to carry a host version into an error.
pub assume_specification[ <SemverVersion as Clone>::clone ](v: &SemverVersion) -> SemverVersion;

/// `semver::VersionReq` is cloned to copy a requirement.
pub assume_specification[ <SemverVersionReq as Clone>::clone ](
    v: &SemverVersionReq,
) -> SemverVersionReq;

/// A semantic version (major.minor.patch, with optional pre-release and
/// build metadata).
#[derive(Debug)]
pub struct Version {
    text: String,
    parsed: SemverVersion,
}

/// A version requirement: an intersection of comparators such as
/// `>=1.2.3, <1.8`.
#[derive(Debug)]
pub struct VersionReq {
    text: String,
    parsed: SemverVersionReq,
}

impl View for Version {
    type V = Seq<char>;

    closed spec fn view(&self) -> Seq<char> {
        self.text@
    }
}

impl View for VersionReq {
    type V = Seq<char>;

    closed spec fn view(&self) -> Seq<char> {
        self.text@
    }
}

/// Relies on `semver::VersionReq::matches`, applied to the values parsed
/// from the two texts: the answer depends on the texts alone.
#[verifier::external_body]
fn semver_matches(requirement: &VersionReq, version: &Version) -> (r: bool)
    ensures
        r == requirement_matches(requirement@, version@),
{
    requirement.parsed.matches(&version.parsed)
}

impl Version {
    /// Parses a version; it keeps `text` as written.
    pub fn parse(text: &str) -> (r: Result<Version, SemverError>)
        ensures
            r is Ok <==> parses_as_version(text@),
            r matches Ok(v) ==> v@ == text@,
    {
        match semver_parse_version(text) {
            Ok(parsed) => Ok(Version { text: text.to_owned(), parsed }),
            Err(e) => Err(e),
        }
    }

    /// The text of the version.
    pub fn as_str(&self) -> (r: &str)
        ensures
            r@ == self@,
    {
        self.text.as_str()
    }
}

impl Clone for Version {
    fn clone(&self) -> (r: Self)
        ensures
            r@ == self@,
    {
        Version { text: self.text.clone(), parsed: self.parsed.clone() }
    }
}

impl VersionReq {
    /// Parses a version requirement; it keeps `text` as written.
    pub fn parse(text: &str) -> (r: Result<VersionReq, SemverError>)
        ensures
            r is Ok <==> parses_as_requirement(text@),
            r matches Ok(q) ==> q@ == text@,
    {
        match semver_parse_requirement(text) {
            Ok(parsed) => Ok(VersionReq { text: text.to_owned(), parsed }),
            Err(e) => Err(e),
        }
    }

    /// The text of the requirement.
    pub fn as_str(&self) -> (r: &str)
        ensures
            r@ == self@,
    {
        self.text.as_str()
    }

    /// Whether `version` satisfies this requirement.
    pub fn matches(&self, version: &Version) -> (r: bool)
        ensures
            r == requirement_matches(self@, version@),
    {
        semver_matches(self, version)
    }
}

impl Clone for VersionReq {
    fn clone(&self) -> (r: Self)
        ensures
            r@ == self@,
    {
        VersionReq { text: self.text.clone(), parsed: self.parsed.clone() }
    }
}

} // verus!
