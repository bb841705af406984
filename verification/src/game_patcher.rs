//! The game patcher's decisions: where the known packaging defects live
//! inside the game tree and what to do about each. The renames, the
//! deletions and the writing of the replacement executable are the
//! application's work; this module fixes the exact paths and the
//! tolerant handling of an already-patched tree.

use vstd::prelude::*;
use vstd::string::*;

use crate::error::LauncherError;

verus! {

/// What to do about the wrongly named resource file.
#[derive(Debug, PartialEq, Eq, Clone, Copy, Structural)]
pub enum UnityResourcesAction {
    /// The badly named file is present: rename it to its intended name.
    RenameToFixed,
    /// Only the intended name is present: an earlier run already fixed
    /// it, nothing to do.
    AlreadyFixed,
}

/// The resource file whose on-disk name carries URL-encoded spaces, as
/// the game tree ships it.
pub fn unity_resources_path(game_dir: &str) -> (r: String)
    ensures
        r@ == game_dir@ + "/"@ + "PGR"@ + "/"@ + "PGR"@
            + "_Data/Resources/unity%20default%20resources"@,
{
    let base = crate::join_path(game_dir, "PGR");
    let name = String::from_str("PGR").concat("_Data/Resources/unity%20default%20resources");
    crate::join_path(base.as_str(), name.as_str())
}

/// The same resource file under its intended, literally spaced name.
pub fn unity_resources_fixed_path(game_dir: &str) -> (r: String)
    ensures
        r@ == game_dir@ + "/"@ + "PGR"@ + "/"@ + "PGR"@
            + "_Data/Resources/unity default resources"@,
{
    let base = crate::join_path(game_dir, "PGR");
    let name = String::from_str("PGR").concat("_Data/Resources/unity default resources");
    crate::join_path(base.as_str(), name.as_str())
}

/// The helper executable that is replaced by an empty stub.
pub fn krsdk_external_path(game_dir: &str) -> (r: String)
    ensures
        r@ == game_dir@ + "/"@ + "PGR"@ + "/"@ + "PGR"@ + "_Data/Plugins/KRSDKExternal.exe"@,
{
    let base = crate::join_path(game_dir, "PGR");
    let name = String::from_str("PGR").concat("_Data/Plugins/KRSDKExternal.exe");
    crate::join_path(base.as_str(), name.as_str())
}

/// The game's executable, the one the patched replacement overwrites.
pub fn game_executable_path(game_dir: &str) -> (r: String)
    ensures
        r@ == game_dir@ + "/"@ + "PGR"@ + "/"@ + "PGR.exe"@,
{
    let base = crate::join_path(game_dir, "PGR");
    crate::join_path(base.as_str(), "PGR.exe")
}

/// The tolerant rename decision: rename when the bad name exists, do
/// nothing when only the fixed name exists, and fail when neither form
/// is on disk — that tree needs a repair, not a patch.
pub fn unity_rename_decision(bad_exists: bool, fixed_exists: bool) -> (r: Result<
    UnityResourcesAction,
    LauncherError,
>)
    ensures
        bad_exists ==> r == Ok::<_, LauncherError>(UnityResourcesAction::RenameToFixed),
        (!bad_exists && fixed_exists) ==> r == Ok::<_, LauncherError>(
            UnityResourcesAction::AlreadyFixed,
        ),
        (!bad_exists && !fixed_exists) ==> r == Err::<UnityResourcesAction, _>(
            LauncherError::UnityResourcesMissing,
        ),
{
    if bad_exists {
        Ok(UnityResourcesAction::RenameToFixed)
    } else if fixed_exists {
        Ok(UnityResourcesAction::AlreadyFixed)
    } else {
        Err(LauncherError::UnityResourcesMissing)
    }
}

} // verus!
