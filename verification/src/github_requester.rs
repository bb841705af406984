//! Model of the release-hosting API's answers: a repository's releases
//! with their downloadable assets, and the selections the launcher makes
//! over them. The application fetches the release list; resolving an
//! index to a release and a release to its archive asset is decided
//! here.

use vstd::prelude::*;

use crate::error::LauncherError;

verus! {

/// One downloadable file attached to a release.
#[derive(Debug, PartialEq, Eq)]
pub struct Asset {
    pub url: String,
    pub id: i64,
    pub node_id: String,
    pub name: String,
    pub content_type: String,
    pub state: String,
    pub size: i64,
    pub download_count: i64,
    pub created_at: String,
    pub updated_at: String,
    pub browser_download_url: String,
}

/// One release of a repository, with its downloadable assets in the
/// order the API lists them.
#[derive(Debug, PartialEq, Eq)]
pub struct GithubRelease {
    pub url: String,
    pub assets_url: String,
    pub tag_name: String,
    pub target_commitish: String,
    pub name: String,
    pub assets: Vec<Asset>,
}

/// Resolve a user-chosen index into the fetched release list, newest
/// first: the index is answered exactly when it is in range.
pub fn select_release(releases: &Vec<GithubRelease>, release_index: usize) -> (r: Result<
    &GithubRelease,
    LauncherError,
>)
    ensures
        r is Ok <==> release_index < releases@.len(),
        r matches Ok(rel) ==> *rel == releases@[release_index as int],
        r matches Err(e) ==> e == LauncherError::WrongReleaseIndex,
{
    if release_index < releases.len() {
        Ok(&releases[release_index])
    } else {
        Err(LauncherError::WrongReleaseIndex)
    }
}

/// Pick the archive asset of a release by its position in the asset
/// list: answered exactly when the release carries that many assets.
pub fn select_asset(release: &GithubRelease, asset_index: usize) -> (r: Result<
    &Asset,
    LauncherError,
>)
    ensures
        r is Ok <==> asset_index < release.assets@.len(),
        r matches Ok(a) ==> *a == release.assets@[asset_index as int],
        r matches Err(e) ==> e == LauncherError::AssetNotFound,
{
    if asset_index < release.assets.len() {
        Ok(&release.assets[asset_index])
    } else {
        Err(LauncherError::AssetNotFound)
    }
}

/// The release-API client used by the component downloads; the
/// application owns the HTTP side.
pub struct ComponentsDownloader;

impl ComponentsDownloader {
    /// The compatibility-runtime archive is the second asset of its
    /// release.
    pub fn pick_wine_asset(release: &GithubRelease) -> (r: Result<&Asset, LauncherError>)
        ensures
            r is Ok <==> release.assets@.len() > 1,
            r matches Ok(a) ==> *a == release.assets@[1],
            r matches Err(e) ==> e == LauncherError::AssetNotFound,
    {
        select_asset(release, 1)
    }

    /// The graphics-layer archive is the first asset of its release.
    pub fn pick_dxvk_asset(release: &GithubRelease) -> (r: Result<&Asset, LauncherError>)
        ensures
            r is Ok <==> release.assets@.len() > 0,
            r matches Ok(a) ==> *a == release.assets@[0],
            r matches Err(e) ==> e == LauncherError::AssetNotFound,
    {
        select_asset(release, 0)
    }
}

/// The release-API client of the launcher's UI bridge; the application
/// owns the HTTP side.
pub struct GithubInfo;

} // verus!
