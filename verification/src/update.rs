//! Deciding whether a newer release is available.
//!
//! Fetching the list of releases and replacing the program are left to the
//! caller. This module decides, from the list, whether there is anything to
//! fetch.

use vstd::prelude::*;
use crate::text::{
    has_substring,
    str_contains,
    str_to_lowercase,
    str_trim_start_matches,
    unicode_lowercase,
    without_leading,
};

verus! {

/// A release that can be installed.
#[derive(Debug, Clone)]
pub struct UpdateInfo {
    pub version: String,
    pub release_notes: Option<String>,
}

/// The outcome of looking for a newer release.
#[derive(Debug)]
pub enum UpdateCheckResult {
    /// A newer release exists.
    Available(UpdateInfo),
    /// The running version is the latest.
    UpToDate,
    /// The check could not be made; the message says why.
    Error(String),
}

/// The outcome of installing a release.
#[derive(Debug)]
pub enum ApplyUpdateResult {
    /// The release was installed; the program has to be started again.
    Success { new_version: String },
    /// There was nothing to install.
    UpToDate,
    /// The release could not be installed; the message says why.
    Error(String),
}

/// A published release, as far as the check reads it.
#[derive(Debug, Clone)]
pub struct ReleaseInfo {
    /// The version, with or without a leading `v`.
    pub version: String,
    /// The release notes.
    pub body: Option<String>,
}

/// The error type of the self_update crate. Nothing is known of its values.
#[verifier::external_type_specification]
#[verifier::external_body]
pub struct ExUpdateError(self_update::errors::Error);

/// Whether `other` is a greater version than `current` by the rules of
/// semantic versioning, as `self_update::version::bump_is_greater` decides
/// it; `None` where one of the two is no semantic version. The rules of
/// parsing and of precedence are those of the semver crate and are not
/// restated here.
pub uninterp spec fn semver_is_greater(current: Seq<char>, other: Seq<char>) -> Option<bool>;

/// Trusted: `self_update::version::bump_is_greater` parses both strings as
/// semantic versions and answers whether the second is greater; it fails
/// exactly when one of them does not parse. The answer depends on the two
/// strings alone.
#[verifier::external_body]
fn bump_is_greater(current: &str, other: &str) -> (r: Result<bool, self_update::errors::Error>)
    ensures
        match r {
            Ok(greater) => semver_is_greater(current@, other@) == Some(greater),
            Err(_) => semver_is_greater(current@, other@) is None,
        },
{
    self_update::version::bump_is_greater(current, other)
}

/// Trusted: turns an error of the self_update crate into a message, through
/// the error's `Display`. Nothing is claimed of the text.
#[verifier::external_body]
fn comparison_failure(error: &self_update::errors::Error) -> (r: String) {
    format!("Failed to compare versions: {}", error)
}

/// A lower-case version names a prerelease: it holds `-rc`, `-alpha`,
/// `-beta` or `-dev`.
pub open spec fn names_prerelease(lower: Seq<char>) -> bool {
    ||| has_substring(lower, "-rc"@)
    ||| has_substring(lower, "-alpha"@)
    ||| has_substring(lower, "-beta"@)
    ||| has_substring(lower, "-dev"@)
}

/// Whether a version that is already in lower case names a prerelease.
pub fn is_prerelease_lowercase(lower: &str) -> (r: bool)
    ensures
        r == names_prerelease(lower@),
{
    str_contains(lower, "-rc") || str_contains(lower, "-alpha") || str_contains(lower, "-beta")
        || str_contains(lower, "-dev")
}

/// Whether a version names a prerelease, whatever its case.
pub fn is_prerelease(version: &str) -> (r: bool)
    ensures
        r == names_prerelease(unicode_lowercase(version@)),
{
    let lower = str_to_lowercase(version);
    is_prerelease_lowercase(lower.as_str())
}

/// A release counts: prereleases count only when they are asked for.
pub open spec fn eligible(release: ReleaseInfo, include_prereleases: bool) -> bool {
    include_prereleases || !names_prerelease(unicode_lowercase(release.version@))
}

/// Index of the first release from `from` on that counts.
pub open spec fn first_eligible(
    releases: Seq<ReleaseInfo>,
    include_prereleases: bool,
    from: int,
) -> Option<int>
    decreases releases.len() - from,
{
    if from < 0 || from >= releases.len() {
        None
    } else if eligible(releases[from], include_prereleases) {
        Some(from)
    } else {
        first_eligible(releases, include_prereleases, from + 1)
    }
}

/// The first release that counts.
pub fn latest_release(releases: &Vec<ReleaseInfo>, include_prereleases: bool) -> (r: Option<usize>)
    ensures
        match r {
            Some(i) => i < releases.len() && first_eligible(releases@, include_prereleases, 0)
                == Some(i as int),
            None => first_eligible(releases@, include_prereleases, 0) is None,
        },
{
    let mut i: usize = 0;
    while i < releases.len()
        invariant
            i <= releases.len(),
            first_eligible(releases@, include_prereleases, 0) == first_eligible(
                releases@,
                include_prereleases,
                i as int,
            ),
        decreases releases.len() - i,
    {
        if include_prereleases || !is_prerelease(releases[i].version.as_str()) {
            return Some(i);
        }
        i += 1;
    }
    None
}

/// What the comparison of the running version with the latest release says.
pub fn outcome_of_comparison(
    compared: Result<bool, String>,
    latest_version: &str,
    release_notes: &Option<String>,
) -> (r: UpdateCheckResult)
    ensures
        match compared {
            Ok(true) => r matches UpdateCheckResult::Available(info) && info.version@
                == latest_version@ && info.release_notes == *release_notes,
            Ok(false) => r is UpToDate,
            Err(message) => r matches UpdateCheckResult::Error(text) && text == message,
        },
{
    match compared {
        Ok(true) => {
            let notes = match release_notes {
                Some(text) => Some(text.clone()),
                None => None,
            };
            UpdateCheckResult::Available(
                UpdateInfo { version: latest_version.to_owned(), release_notes: notes },
            )
        },
        Ok(false) => UpdateCheckResult::UpToDate,
        Err(message) => UpdateCheckResult::Error(message),
    }
}

/// Decides from the list of releases, newest first, whether a newer release
/// than `current_version` is available.
///
/// The latest release is the first that counts. With none, the running
/// version is up to date. Otherwise its version, without leading `v`, is
/// compared with the running one.
pub fn evaluate_releases(
    current_version: &str,
    releases: &Vec<ReleaseInfo>,
    include_prereleases: bool,
) -> (r: UpdateCheckResult)
    ensures
        match first_eligible(releases@, include_prereleases, 0) {
            None => r is UpToDate,
            Some(i) => {
                let latest = without_leading(releases[i].version@, 'v');
                match semver_is_greater(current_version@, latest) {
                    Some(true) => r matches UpdateCheckResult::Available(info) && info.version@
                        == latest && info.release_notes == releases[i].body,
                    Some(false) => r is UpToDate,
                    None => r is Error,
                }
            },
        },
{
    let index = match latest_release(releases, include_prereleases) {
        Some(i) => i,
        None => {
            return UpdateCheckResult::UpToDate;
        },
    };
    let latest = &releases[index];
    let latest_version = str_trim_start_matches(latest.version.as_str(), 'v');
    let compared = match bump_is_greater(current_version, latest_version) {
        Ok(greater) => Ok(greater),
        Err(error) => Err(comparison_failure(&error)),
    };
    outcome_of_comparison(compared, latest_version, &latest.body)
}

} // verus!
