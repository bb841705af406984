//! The installable components around the game itself: the
//! compatibility runtime and the plain Wine build it can stand in for.
//! Each component knows its place under the launcher's directory, which
//! release archive it comes from, and which directory that archive
//! unpacks to. The downloads and the unpacking are the application's
//! work.

use vstd::prelude::*;

verus! {

pub const PROTON_DEV: &'static str = "GloriousEggroll";

pub const PROTON_REPO: &'static str = "proton-ge-custom";

pub const WINE_DEV: &'static str = "Kron4ek";

pub const WINE_REPO: &'static str = "Wine-Builds";

pub const DXVK_DEV: &'static str = "doitsujin";

pub const DXVK_REPO: &'static str = "dxvk";

/// The compatibility runtime, installed under `proton` in the
/// launcher's directory.
#[derive(Debug, PartialEq, Eq)]
pub struct ProtonComponent {
    pub path: String,
    pub github_release_index: usize,
}

impl ProtonComponent {
    /// The runtime's final location under the launcher's directory,
    /// initially set to take the newest release.
    pub fn new(path: String) -> (c: ProtonComponent)
        ensures
            c.path@ == path@ + "/"@ + "proton"@,
            c.github_release_index == 0,
    {
        let p = crate::join_path(path.as_str(), "proton");
        ProtonComponent { path: p, github_release_index: 0 }
    }

    /// Choose which release of the runtime to install.
    pub fn set_github_release_index(&mut self, new_release_index: usize)
        ensures
            final(self).github_release_index == new_release_index,
            final(self).path == old(self).path,
    {
        self.github_release_index = new_release_index;
    }

    /// The directory the runtime's archive unpacks to: the archive's
    /// name without its `.tar.gz` ending. Nothing when the name does
    /// not carry that ending.
    pub fn extracted_dir_name(archive_name: &str) -> (r: Option<String>)
        ensures
            r is Some <==> (archive_name@.len() >= ".tar.gz"@.len() && archive_name@.skip(
                archive_name@.len() - ".tar.gz"@.len(),
            ) == ".tar.gz"@),
            r matches Some(p) ==> p@ == archive_name@.take(
                archive_name@.len() - ".tar.gz"@.len(),
            ),
    {
        crate::strip_string_suffix(archive_name, ".tar.gz")
    }
}

/// The game package seen as a downloadable component of its own; the
/// synchronization engine behind
/// [`crate::game_component::GameComponent`] does its actual work.
#[derive(Debug, PartialEq, Eq)]
pub struct PGRComponent {
    pub path: String,
}

/// A plain Wine build, installed under `wine` in the launcher's
/// directory.
#[derive(Debug, PartialEq, Eq)]
pub struct WineComponent {
    pub path: String,
    pub github_release_index: usize,
}

impl WineComponent {
    /// Wine's final location under the launcher's directory, initially
    /// set to take the newest release.
    pub fn new(path: String) -> (c: WineComponent)
        ensures
            c.path@ == path@ + "/"@ + "wine"@,
            c.github_release_index == 0,
    {
        let p = crate::join_path(path.as_str(), "wine");
        WineComponent { path: p, github_release_index: 0 }
    }

    /// Choose which release of Wine to install.
    pub fn set_github_release_index(&mut self, new_release_index: usize)
        ensures
            final(self).github_release_index == new_release_index,
            final(self).path == old(self).path,
    {
        self.github_release_index = new_release_index;
    }

    /// The directory Wine's archive unpacks to: the archive's name
    /// without its `.tar.xz` ending. Nothing when the name does not
    /// carry that ending.
    pub fn extracted_dir_name(archive_name: &str) -> (r: Option<String>)
        ensures
            r is Some <==> (archive_name@.len() >= ".tar.xz"@.len() && archive_name@.skip(
                archive_name@.len() - ".tar.xz"@.len(),
            ) == ".tar.xz"@),
            r matches Some(p) ==> p@ == archive_name@.take(
                archive_name@.len() - ".tar.xz"@.len(),
            ),
    {
        crate::strip_string_suffix(archive_name, ".tar.xz")
    }
}

} // verus!
