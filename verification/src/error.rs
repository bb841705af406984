//! The library's error values. Each one names the exact condition its
//! function's contract ties it to; `message` renders the wording the
//! launcher shows.

use vstd::prelude::*;

verus! {

#[derive(Debug, PartialEq, Eq, Clone, Copy, Structural)]
pub enum LauncherError {
    /// A custom launch template was given without the `%command%`
    /// placeholder.
    MissingCommandPlaceholder,
    /// A release was requested by an index past the end of the release
    /// list.
    WrongReleaseIndex,
    /// The expected downloadable asset is absent from the chosen
    /// release.
    AssetNotFound,
    /// Neither the badly named resource file nor its fixed form is in
    /// the game tree: the installation needs a repair before patching.
    UnityResourcesMissing,
}

impl LauncherError {
    /// The user-facing wording of this error.
    pub fn message(&self) -> (r: String)
        ensures
            *self is MissingCommandPlaceholder ==> r@
                == "You forget to put %command% in your custom launch command"@,
            *self is WrongReleaseIndex ==> r@
                == "Wrong index when trying to get the github release"@,
            *self is AssetNotFound ==> r@ == "Asset not found in the github release"@,
            *self is UnityResourcesMissing ==> r@
                == "The resources file doesn't exists ? Please restart the launcher and make a repair."@,
    {
        match self {
            LauncherError::MissingCommandPlaceholder => String::from_str(
                "You forget to put %command% in your custom launch command",
            ),
            LauncherError::WrongReleaseIndex => String::from_str(
                "Wrong index when trying to get the github release",
            ),
            LauncherError::AssetNotFound => String::from_str(
                "Asset not found in the github release",
            ),
            LauncherError::UnityResourcesMissing => String::from_str(
                "The resources file doesn't exists ? Please restart the launcher and make a repair.",
            ),
        }
    }
}

} // verus!
