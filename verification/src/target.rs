//! The resolved download target.
//!
//! A target is only ever constructed from a version confirmed present in the
//! fetched version list and from the latest build of a non-empty fetched
//! build list — never speculatively.

use crate::distribution::Distribution;
use crate::metadata::spec_latest_build;
use crate::urls::{resolve_download_url, spec_download_url};
use vstd::prelude::*;

verus! {

/// Whether one of the fetched versions reads exactly like the choice.
pub open spec fn spec_contains_version(versions: Seq<Seq<char>>, choice: Seq<char>) -> bool {
    exists|i: int| 0 <= i < versions.len() && versions[i] == choice
}

/// Returns whether `choice` is one of the fetched versions.
pub fn contains_version(versions: &Vec<String>, choice: &String) -> (r: bool)
    ensures
        r == spec_contains_version(versions@.map_values(|s: String| s@), choice@),
{
    let ghost views = versions@.map_values(|s: String| s@);
    let mut i: usize = 0;
    while i < versions.len()
        invariant
            0 <= i <= versions@.len(),
            views == versions@.map_values(|s: String| s@),
            forall|k: int| 0 <= k < i ==> views[k] != choice@,
        decreases versions@.len() - i,
    {
        if versions[i].eq(choice) {
            proof {
                assert(views[i as int] == choice@);
            }
            return true;
        }
        i = i + 1;
    }
    false
}

/// A (distribution, version, build) triple confirmed against the fetched
/// metadata, ready to be turned into a download URL.
pub struct DownloadTarget {
    distribution: Distribution,
    version: String,
    build: u64,
}

impl DownloadTarget {
    /// The distribution the target belongs to.
    pub closed spec fn spec_distribution(self) -> Distribution {
        self.distribution
    }

    /// The confirmed version label.
    pub closed spec fn spec_version(self) -> Seq<char> {
        self.version@
    }

    /// The selected build number.
    pub closed spec fn spec_build(self) -> u64 {
        self.build
    }

    /// Builds a target from the fetched metadata: `Some` exactly when the
    /// chosen version is present in the fetched version list and the build
    /// list is non-empty; the build is then the latest one — the last
    /// element of the list, by the endpoint's ordering.
    pub fn confirm(
        d: Distribution,
        versions: &Vec<String>,
        choice: &String,
        builds: &Vec<u64>,
    ) -> (r: Option<DownloadTarget>)
        ensures
            match r {
                Some(t) => {
                    &&& spec_contains_version(versions@.map_values(|s: String| s@), choice@)
                    &&& t.spec_distribution() == d
                    &&& t.spec_version() == choice@
                    &&& spec_latest_build(builds@) == Some(t.spec_build())
                },
                None => !spec_contains_version(versions@.map_values(|s: String| s@), choice@)
                    || builds@.len() == 0,
            },
    {
        if !contains_version(versions, choice) {
            return None;
        }
        if builds.len() == 0 {
            return None;
        }
        let build = builds[builds.len() - 1];
        Some(DownloadTarget { distribution: d, version: choice.clone(), build })
    }

    /// The download URL of the target, by its distribution's template.
    pub fn url(&self) -> (s: String)
        ensures
            s@ == spec_download_url(self.spec_distribution(), self.spec_version(), self.spec_build()),
    {
        resolve_download_url(self.distribution, self.version.as_str(), self.build)
    }

    /// The confirmed version label, for display and for the file path.
    pub fn version(&self) -> (s: &String)
        ensures
            s@ == self.spec_version(),
    {
        &self.version
    }

    /// The selected build number.
    pub fn build(&self) -> (b: u64)
        ensures
            b == self.spec_build(),
    {
        self.build
    }
}

} // verus!
