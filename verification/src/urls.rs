//! Endpoint and artifact URL construction.
//!
//! Each distribution has its own metadata endpoints and its own download URL
//! template. Building a URL is pure string templating: no network access and
//! no check that the result is reachable (the downloader discovers that).

use crate::decimal::{spec_dec_digits, u64_to_decimal};
use crate::distribution::Distribution;
use vstd::prelude::*;

verus! {

/// The metadata endpoint that lists the versions of a distribution.
pub open spec fn spec_versions_url(d: Distribution) -> Seq<char> {
    match d {
        Distribution::Paper => "https://api.papermc.io/v2/projects/paper"@,
        Distribution::Purpur => "https://api.purpurmc.org/v2/purpur"@,
    }
}

/// The metadata endpoint that lists the builds of one version.
pub open spec fn spec_builds_url(d: Distribution, version: Seq<char>) -> Seq<char> {
    match d {
        Distribution::Paper => "https://api.papermc.io/v2/projects/paper/versions/"@ + version
            + "/builds"@,
        Distribution::Purpur => "https://api.purpurmc.org/v2/purpur/"@ + version,
    }
}

/// The download URL for one artifact, by the distribution's template.
pub open spec fn spec_download_url(d: Distribution, version: Seq<char>, build: u64) -> Seq<char> {
    match d {
        Distribution::Paper => "https://api.papermc.io/v2/projects/paper/versions/"@ + version
            + "/builds/"@ + spec_dec_digits(build as int) + "/downloads/paper-"@ + version + "-"@
            + spec_dec_digits(build as int) + ".jar"@,
        Distribution::Purpur => "https://api.purpurmc.org/v2/purpur/"@ + version + "/"@
            + spec_dec_digits(build as int) + "/download"@,
    }
}

/// Returns the metadata endpoint that lists the versions of `d`.
pub fn versions_url(d: Distribution) -> (s: String)
    ensures
        s@ == spec_versions_url(d),
{
    match d {
        Distribution::Paper => "https://api.papermc.io/v2/projects/paper".to_owned(),
        Distribution::Purpur => "https://api.purpurmc.org/v2/purpur".to_owned(),
    }
}

/// Returns the metadata endpoint that lists the builds of `version` of `d`.
pub fn builds_url(d: Distribution, version: &str) -> (s: String)
    ensures
        s@ == spec_builds_url(d, version@),
{
    match d {
        Distribution::Paper => {
            let mut s = "https://api.papermc.io/v2/projects/paper/versions/".to_owned();
            s.append(version);
            s.append("/builds");
            proof {
                assert(s@ =~= spec_builds_url(d, version@));
            }
            s
        },
        Distribution::Purpur => {
            let mut s = "https://api.purpurmc.org/v2/purpur/".to_owned();
            s.append(version);
            proof {
                assert(s@ =~= spec_builds_url(d, version@));
            }
            s
        },
    }
}

/// Returns the download URL for build `build` of `version` of `d`, by the
/// distribution's template.
pub fn resolve_download_url(d: Distribution, version: &str, build: u64) -> (s: String)
    ensures
        s@ == spec_download_url(d, version@, build),
{
    let digits = u64_to_decimal(build);
    match d {
        Distribution::Paper => {
            let mut s = "https://api.papermc.io/v2/projects/paper/versions/".to_owned();
            s.append(version);
            s.append("/builds/");
            s.append(digits.as_str());
            s.append("/downloads/paper-");
            s.append(version);
            s.append("-");
            s.append(digits.as_str());
            s.append(".jar");
            proof {
                assert(s@ =~= spec_download_url(d, version@, build));
            }
            s
        },
        Distribution::Purpur => {
            let mut s = "https://api.purpurmc.org/v2/purpur/".to_owned();
            s.append(version);
            s.append("/");
            s.append(digits.as_str());
            s.append("/download");
            proof {
                assert(s@ =~= spec_download_url(d, version@, build));
            }
            s
        },
    }
}

/// Resolving a download URL is a pure function of distribution, version and
/// build: any two resolutions of identical inputs are the identical string.
pub proof fn lemma_download_url_deterministic(
    d: Distribution,
    version: Seq<char>,
    build: u64,
    url1: Seq<char>,
    url2: Seq<char>,
)
    requires
        url1 == spec_download_url(d, version, build),
        url2 == spec_download_url(d, version, build),
    ensures
        url1 == url2,
{
}

} // verus!
