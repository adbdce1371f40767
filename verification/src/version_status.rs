//! Three-way comparison of two free-form version strings, and the report
//! record one version check produces.
//!
//! The ordering itself comes from the `versions` crate's lenient parser and
//! total order; a string that does not parse falls back to that crate's
//! default version, so a comparison is produced for every pair of inputs.
//! Within a version segment that crate compares alphanumeric suffixes
//! lexically, so a suffix like `PRE9H2` sorts below `RC3`: a deviation,
//! documented here, from systems that rank such suffixes above
//! release-candidate tags.

use vstd::prelude::*;

use crate::mod_info::OreModInfo;
use crate::schemas::{spec_version_from_tag, Project};

verus! {

/// How a locally installed version stands to the remote one.
#[derive(Debug, Clone, PartialEq, Eq, Structural)]
pub enum VersionStatus {
    /// The local version is older than the remote one.
    OutOfDate,
    /// The two versions are equal.
    UpToDate,
    /// The local version is newer than the remote one.
    Overdated,
}

/// The ordering of two version strings under the `versions` crate's lenient
/// total order, with an unparseable string standing in as the default
/// version: negative for less, zero for equal, positive for greater.
pub uninterp spec fn version_order(local: Seq<char>, remote: Seq<char>) -> int;

/// Relies on versions::Versioning::new (a deterministic parse of the string
/// alone), Versioning's Ord::cmp (a total order) and its Default (the
/// version "0.0.0", which stands in when a string does not parse).
#[verifier::external_body]
fn compare_version_strings(local: &str, remote: &str) -> (r: i8)
    ensures
        r as int == version_order(local@, remote@),
        r == -1 || r == 0 || r == 1,
{
    let l = versions::Versioning::new(local).unwrap_or_default();
    let m = versions::Versioning::new(remote).unwrap_or_default();
    match l.cmp(&m) {
        core::cmp::Ordering::Less => -1,
        core::cmp::Ordering::Equal => 0,
        core::cmp::Ordering::Greater => 1,
    }
}

/// The status an ordering outcome maps to.
pub open spec fn spec_status_of_order(o: int) -> VersionStatus {
    if o < 0 {
        VersionStatus::OutOfDate
    } else if o == 0 {
        VersionStatus::UpToDate
    } else {
        VersionStatus::Overdated
    }
}

/// The status of `local` against `remote`.
pub open spec fn spec_version_status(local: Seq<char>, remote: Seq<char>) -> VersionStatus {
    spec_status_of_order(version_order(local, remote))
}

impl VersionStatus {
    /// Compares the local version string against the remote one. Neither
    /// string needs to parse: comparison never fails.
    pub fn new(local: &str, remote: &str) -> (r: VersionStatus)
        ensures
            r == spec_version_status(local@, remote@),
    {
        let c = compare_version_strings(local, remote);
        if c < 0 {
            VersionStatus::OutOfDate
        } else if c == 0 {
            VersionStatus::UpToDate
        } else {
            VersionStatus::Overdated
        }
    }

    /// Compares the local version string against the remote one.
    pub fn check_version(local: &str, remote: &str) -> (r: VersionStatus)
        ensures
            r == spec_version_status(local@, remote@),
    {
        Self::new(local, remote)
    }

    /// The one-line description of this status.
    pub fn message(&self) -> (r: &'static str)
        ensures
            *self is OutOfDate ==> r@ == "Version is outdated"@,
            *self is UpToDate ==> r@ == "Version is up to date"@,
            *self is Overdated ==> r@ == "Local version is newer than Remote version"@,
    {
        match self {
            VersionStatus::OutOfDate => "Version is outdated",
            VersionStatus::UpToDate => "Version is up to date",
            VersionStatus::Overdated => "Local version is newer than Remote version",
        }
    }
}

/// The outcome of checking one local record against a remote project: the
/// identifier, both version strings, and their three-way status.
#[derive(Debug, Clone, PartialEq, Eq)]
pub struct VersionDisplay {
    pub id: String,
    pub local_version: String,
    pub remote_version: String,
    pub status: VersionStatus,
}

impl VersionDisplay {
    /// Checks a local record against a remote project: the remote version is
    /// the one promoted for the record's platform major version (the empty
    /// string when none is), and the status compares the two version
    /// strings.
    pub fn new(local: OreModInfo, remote: &Project) -> (r: VersionDisplay)
        ensures
            r.id == local.modid,
            r.local_version == local.version,
            r.remote_version@ == spec_version_from_tag(
                remote.promoted_versions.deep_view(),
                local.major_api_version,
            ),
            r.status == spec_version_status(
                local.version@,
                spec_version_from_tag(
                    remote.promoted_versions.deep_view(),
                    local.major_api_version,
                ),
            ),
{
        let sponge_tag = local.major_api_version;
        let remote_version = remote.version_from_tag(sponge_tag).to_owned();
        let status = VersionStatus::new(local.version.as_str(), remote_version.as_str());
        VersionDisplay {
            id: local.modid,
            local_version: local.version,
            remote_version,
            status,
        }
    }
}

} // verus!
