//! The decision half of the release catalog client.
//!
//! The network transfer itself is work of the host; what belongs to the
//! library is everything that determines and judges it: the endpoint URLs,
//! the identifier sent as the user agent, and the reading of an outcome —
//! status first, body second — into a release or a typed error.

use vstd::prelude::*;

verus! {

use crate::release::{GithubRelease, GithubReleaseAsset};
use vstd::string::StringExecFns;

/// Failure of a release fetch.
#[derive(Clone, Copy, Debug, PartialEq, Eq, Structural)]
pub enum FetchError {
    /// Transport-level failure: the request got no response at all.
    Network,
    /// The service answered with a non-success status.
    Http { status: u16 },
    /// The body of a successful response was not well-formed release
    /// metadata.
    Decode,
    /// No asset matched the required patterns.
    AssetNotFound,
}

/// A status of the successful range.
pub open spec fn spec_is_success_status(status: u16) -> bool {
    200 <= status < 300
}

/// The identifier sent as the user agent, required by the hosting service.
pub fn user_agent() -> (r: &'static str)
    ensures
        r@ == "Worbots 4145 Setup Tool"@,
{
    "Worbots 4145 Setup Tool"
}

/// The endpoint returning the latest release of a project.
pub fn github_latest_release_url(user: &str, repo: &str) -> (r: String)
    ensures
        r@ == "https://api.github.com/repos/"@ + user@ + "/"@ + repo@ + "/releases/latest"@,
{
    let mut out = String::from_str("https://api.github.com/repos/");
    out.append(user);
    out.append("/");
    out.append(repo);
    out.append("/releases/latest");
    out
}

/// The endpoint returning the list of releases of a project.
pub fn github_releases_url(user: &str, repo: &str) -> (r: String)
    ensures
        r@ == "https://api.github.com/repos/"@ + user@ + "/"@ + repo@ + "/releases"@,
{
    let mut out = String::from_str("https://api.github.com/repos/");
    out.append(user);
    out.append("/");
    out.append(repo);
    out.append("/releases");
    out
}

/// Judge the outcome of a latest-release request: a non-success status is a
/// status error whatever the body held, and only a successful status with a
/// well-formed body yields a release. `body` carries the decoded release of
/// a successful response, or nothing when decoding failed.
pub fn interpret_release_response(status: u16, body: Option<GithubRelease>) -> (r: Result<
    GithubRelease,
    FetchError,
>)
    ensures
        !spec_is_success_status(status) ==> (r matches Err(e) && e == FetchError::Http { status }),
        spec_is_success_status(status) ==> match body {
            Some(release) => r matches Ok(out) && out == release,
            None => r matches Err(e) && e == FetchError::Decode,
        },
{
    if status < 200 || status >= 300 {
        Err(FetchError::Http { status })
    } else {
        match body {
            Some(release) => Ok(release),
            None => Err(FetchError::Decode),
        }
    }
}

/// Judge the outcome of a release-list request, exactly as
/// `interpret_release_response` judges a latest-release request.
pub fn interpret_releases_response(status: u16, body: Option<Vec<GithubRelease>>) -> (r: Result<
    Vec<GithubRelease>,
    FetchError,
>)
    ensures
        !spec_is_success_status(status) ==> (r matches Err(e) && e == FetchError::Http { status }),
        spec_is_success_status(status) ==> match body {
            Some(releases) => r matches Ok(out) && out == releases,
            None => r matches Err(e) && e == FetchError::Decode,
        },
{
    if status < 200 || status >= 300 {
        Err(FetchError::Http { status })
    } else {
        match body {
            Some(releases) => Ok(releases),
            None => Err(FetchError::Decode),
        }
    }
}

/// Demand an asset from a selection: the selected asset passes through, and
/// an empty selection becomes the matching error.
pub fn require_asset<'a>(found: Option<&'a GithubReleaseAsset>) -> (r: Result<
    &'a GithubReleaseAsset,
    FetchError,
>)
    ensures
        match found {
            Some(a) => r matches Ok(out) && out == a,
            None => r matches Err(e) && e == FetchError::AssetNotFound,
        },
{
    match found {
        Some(a) => Ok(a),
        None => Err(FetchError::AssetNotFound),
    }
}

} // verus!
