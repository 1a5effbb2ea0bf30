//! Releases, as the release index lists them.

use crate::error::{Failure, FailureKind, FailureView};
use vstd::prelude::*;

verus! {

/// One release of a project.
#[derive(Clone, Debug, PartialEq, Eq)]
pub struct GitHubRelease {
    /// Where the release is described.
    pub url: String,
    /// The tag of the release, such as "v1.2.3".
    pub name: String,
}

/// What a `GitHubRelease` is in contracts.
pub struct ReleaseView {
    pub url: Seq<char>,
    pub name: Seq<char>,
}

impl View for GitHubRelease {
    type V = ReleaseView;

    open spec fn view(&self) -> ReleaseView {
        ReleaseView { url: self.url@, name: self.name@ }
    }
}

/// The releases of a sequence, each as what it is in contracts.
pub open spec fn release_views(releases: Seq<GitHubRelease>) -> Seq<ReleaseView> {
    Seq::new(releases.len(), |i: int| releases[i]@)
}

/// What is said when the index lists no release.
pub open spec fn no_release() -> Seq<char> {
    "The release index lists no release."@
}

/// Picks the latest release from the index's list, which has the newest
/// first. An empty list is a network failure.
pub fn get_latest_release(releases: &Vec<GitHubRelease>) -> (latest: Result<GitHubRelease, Failure>)
    ensures
        match latest {
            Ok(release) => releases@.len() > 0 && release@ == releases@[0]@,
            Err(failure) => releases@.len() == 0 && failure@ == (FailureView {
                kind: FailureKind::Network,
                message: no_release(),
            }),
        },
{
    if releases.len() == 0 {
        Err(Failure::new(FailureKind::Network, "The release index lists no release."))
    } else {
        Ok(GitHubRelease { url: releases[0].url.clone(), name: releases[0].name.clone() })
    }
}

} // verus!
