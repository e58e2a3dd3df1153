//! What a build knows of itself.

use vstd::prelude::*;

verus! {

/// When and from what a service was built.
#[derive(Clone, Debug)]
pub struct BuildInfo {
    pub datetime: &'static str,
    pub rust: RustInfo,
    pub git: GitInfo,
}

/// The compiler and the settings of a build.
#[derive(Clone, Debug)]
pub struct RustInfo {
    pub version: &'static str,
    pub platform: &'static str,
    pub features: &'static str,
    pub profile: &'static str,
}

/// The commit a build was made from.
#[derive(Clone, Debug)]
pub struct GitInfo {
    pub branch: &'static str,
    pub commit_author_email: &'static str,
    pub commit_author_name: &'static str,
    pub commit_hash: &'static str,
    pub commit_datetime: &'static str,
    pub commit_message: &'static str,
}

} // verus!
