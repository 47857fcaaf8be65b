//! Whether a release is newer than the running program.
//!
//! Versions are compared as `semver` compares them. Fetching the latest
//! release is left to the caller.

use vstd::prelude::*;

verus! {

/// The error with which `semver` refuses a text.
#[verifier::external_type_specification]
#[verifier::external_body]
pub struct ExSemverError(semver::Error);

/// Whether a text is a semantic version.
pub uninterp spec fn is_semver(text: Seq<char>) -> bool;

/// Whether, of two semantic versions, the first is greater in the total
/// order of `semver::Version`.
pub uninterp spec fn semver_greater(a: Seq<char>, b: Seq<char>) -> bool;

/// `semver::Version::parse` accepts exactly the texts that are semantic
/// versions and fails on every other text.
#[verifier::external_body]
fn check_version(text: &str) -> (r: Result<(), semver::Error>)
    ensures
        r is Ok <==> is_semver(text@),
{
    match semver::Version::parse(text) {
        Ok(_) => Ok(()),
        Err(e) => Err(e),
    }
}

/// The `>` of `semver::Version` on what `semver::Version::parse` makes of
/// two texts that are semantic versions: the result depends on the texts
/// alone.
#[verifier::external_body]
fn greater(a: &str, b: &str) -> (r: bool)
    requires
        is_semver(a@),
        is_semver(b@),
    ensures
        r == semver_greater(a@, b@),
{
    match (semver::Version::parse(a), semver::Version::parse(b)) {
        (Ok(x), Ok(y)) => x > y,
        _ => false,
    }
}

/// A text that should be a version and is none.
#[derive(Debug)]
pub struct InvalidVersion {
    pub text: String,
}

impl InvalidVersion {
    pub fn message(&self) -> (m: String)
        ensures
            m@ == "Not a version: "@ + self.text@,
    {
        let mut m = "Not a version: ".to_owned();
        m.append(self.text.as_str());
        m
    }
}

/// What an update check finds, from what is known of the two texts: the
/// latest version where it is newer than the current one, nothing where it
/// is not. The current version is looked at first: where both texts are no
/// versions, the error names the current one.
pub open spec fn update_from(
    current: Seq<char>,
    latest: Seq<char>,
    current_valid: bool,
    latest_valid: bool,
    newer: bool,
) -> Result<Option<Seq<char>>, Seq<char>> {
    if !current_valid {
        Err(current)
    } else if !latest_valid {
        Err(latest)
    } else if newer {
        Ok(Some(latest))
    } else {
        Ok(None)
    }
}

/// What an update check finds for two texts.
pub open spec fn update_of(current: Seq<char>, latest: Seq<char>) -> Result<
    Option<Seq<char>>,
    Seq<char>,
> {
    update_from(
        current,
        latest,
        is_semver(current),
        is_semver(latest),
        semver_greater(latest, current),
    )
}

/// Decides an update check once the two texts have been looked at:
/// `current_valid` and `latest_valid` say whether each is a version, `newer`
/// whether the latest is greater than the current. `newer` is not read
/// where either text is no version.
pub fn decide_update(
    current: &str,
    latest: &str,
    current_valid: bool,
    latest_valid: bool,
    newer: bool,
) -> (r: Result<Option<String>, InvalidVersion>)
    ensures
        match update_from(current@, latest@, current_valid, latest_valid, newer) {
            Ok(found) => r matches Ok(v) && crate::text::opt_text(v) == found,
            Err(text) => r matches Err(e) && e.text@ == text,
        },
{
    if !current_valid {
        Err(InvalidVersion { text: current.to_owned() })
    } else if !latest_valid {
        Err(InvalidVersion { text: latest.to_owned() })
    } else if newer {
        Ok(Some(latest.to_owned()))
    } else {
        Ok(None)
    }
}

/// Checks whether `latest` is a newer version than `current`.
pub fn check_for_update(current: &str, latest: &str) -> (r: Result<Option<String>, InvalidVersion>)
    ensures
        match update_of(current@, latest@) {
            Ok(found) => r matches Ok(v) && crate::text::opt_text(v) == found,
            Err(text) => r matches Err(e) && e.text@ == text,
        },
{
    let current_valid = match check_version(current) {
        Ok(_) => true,
        Err(_) => false,
    };
    let latest_valid = match check_version(latest) {
        Ok(_) => true,
        Err(_) => false,
    };
    let newer = current_valid && latest_valid && greater(latest, current);
    decide_update(current, latest, current_valid, latest_valid, newer)
}

/// What the daemon answers when asked whether an update is available: one
/// is where a latest version is known and differs from the current one.
pub fn update_available(current: &str, latest: &Option<String>) -> (r: bool)
    ensures
        r == (latest matches Some(v) && v@ != current@),
{
    match latest {
        Some(v) => !crate::text::same_text(v.as_str(), current),
        None => false,
    }
}

} // verus!
