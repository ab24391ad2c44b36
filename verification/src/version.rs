//! Semantic versions: parsing with `semver` and deciding whether a
//! published version is newer than the installed one.

use vstd::prelude::*;
use crate::layout::opt_text;

verus! {

/// What `semver::Version::parse` gives for `text`: `None` when it accepts
/// the text as a version, else the message of its error (`Display` of
/// `semver::Error`).
pub uninterp spec fn semver_parse_outcome(text: Seq<char>) -> Option<Seq<char>>;

/// `text` is a valid SemVer 2.0 version as `semver::Version::parse` reads it.
pub open spec fn semver_accepts(text: Seq<char>) -> bool {
    semver_parse_outcome(text) is None
}

/// The version `a` has a higher precedence than `b` in the order of
/// `semver::Version` (major, minor, patch, pre-release, build metadata).
pub uninterp spec fn semver_newer(a: Seq<char>, b: Seq<char>) -> bool;

/// Parses `text` as a semantic version (`semver::Version::parse`): `None`
/// when it succeeds, else the message of the error.
#[verifier::external_body]
fn semver_parse_error(text: &str) -> (r: Option<String>)
    ensures
        opt_text(r) == semver_parse_outcome(text@),
{
    semver::Version::parse(text).err().map(|e| e.to_string())
}

/// Is the version `a` newer than `b` (`>` on the two `semver::Version`s that
/// `semver::Version::parse` reads from the texts)? Both texts must be versions
/// `semver` accepts, so both parses succeed.
#[verifier::external_body]
fn semver_gt(a: &str, b: &str) -> (r: bool)
    requires
        semver_accepts(a@),
        semver_accepts(b@),
    ensures
        r == semver_newer(a@, b@),
{
    match (semver::Version::parse(a), semver::Version::parse(b)) {
        (Ok(x), Ok(y)) => x > y,
        _ => false,
    }
}

/// Why two version texts could not be compared.
pub enum VersionCheckError {
    /// The published version is not a valid semantic version; the parser's message.
    InvalidRemote(String),
    /// The installed version is not a valid semantic version; the parser's message.
    InvalidInstalled(String),
}

/// Is the published version `remote` newer than the `installed` one? Each
/// is parsed first, the published one first; a text that does not parse
/// gives its error, with the parser's message.
pub fn remote_is_newer(remote: &str, installed: &str) -> (r: Result<bool, VersionCheckError>)
    ensures
        match semver_parse_outcome(remote@) {
            Some(m) => r matches Err(VersionCheckError::InvalidRemote(t)) && t@ == m,
            None => match semver_parse_outcome(installed@) {
                Some(m) => r matches Err(VersionCheckError::InvalidInstalled(t)) && t@ == m,
                None => r matches Ok(b) && b == semver_newer(remote@, installed@),
            },
        },
{
    if let Some(m) = semver_parse_error(remote) {
        return Err(VersionCheckError::InvalidRemote(m));
    }
    if let Some(m) = semver_parse_error(installed) {
        return Err(VersionCheckError::InvalidInstalled(m));
    }
    Ok(semver_gt(remote, installed))
}

} // verus!
