//! The installation state machine: which pipeline stage the launcher is
//! in, computed from the persisted configuration plus the one live fact
//! that only the network can supply (whether the game needs an update).

use vstd::prelude::*;

use crate::game_config::GameConfig;

verus! {

/// The stages of the installation pipeline, in the order they are
/// traversed. Every state but the last names the stage that still has to
/// run; `GameInstalled` is terminal.
#[derive(Debug, PartialEq, Eq, Clone, Copy, Structural)]
pub enum GameState {
    ProtonNotInstalled,
    DXVKNotInstalled,
    FontNotInstalled,
    DependecieNotInstalled,
    GameNotInstalled,
    GameNeedUpdate,
    GameNotPatched,
    GameInstalled,
}

/// The state the launcher is in, as a function of the configuration
/// flags and of whether the live manifest version differs from the
/// cached one (`needs_update`). The first unmet condition, in pipeline
/// order, decides.
pub open spec fn spec_current_state(c: GameConfig, needs_update: bool) -> GameState {
    if !c.is_wine_installed {
        GameState::ProtonNotInstalled
    } else if !c.is_dxvk_installed {
        GameState::DXVKNotInstalled
    } else if !c.is_font_installed {
        GameState::FontNotInstalled
    } else if !c.is_dependecies_installed {
        GameState::DependecieNotInstalled
    } else if !c.is_game_installed {
        GameState::GameNotInstalled
    } else if needs_update {
        GameState::GameNeedUpdate
    } else if !c.is_game_patched {
        GameState::GameNotPatched
    } else {
        GameState::GameInstalled
    }
}

/// Position of a state in the pipeline order.
pub open spec fn stage_index(s: GameState) -> int {
    match s {
        GameState::ProtonNotInstalled => 0,
        GameState::DXVKNotInstalled => 1,
        GameState::FontNotInstalled => 2,
        GameState::DependecieNotInstalled => 3,
        GameState::GameNotInstalled => 4,
        GameState::GameNeedUpdate => 5,
        GameState::GameNotPatched => 6,
        GameState::GameInstalled => 7,
    }
}

impl GameState {
    /// Compute the current state from the configuration. The caller
    /// supplies `needs_update`, the result of comparing the live
    /// manifest version against the cached one; it only matters once
    /// every stage up to the game installation is complete.
    pub fn get_current_state(config: &GameConfig, needs_update: bool) -> (s: GameState)
        ensures
            s == spec_current_state(*config, needs_update),
    {
        if !config.is_wine_installed {
            GameState::ProtonNotInstalled
        } else if !config.is_dxvk_installed {
            GameState::DXVKNotInstalled
        } else if !config.is_font_installed {
            GameState::FontNotInstalled
        } else if !config.is_dependecies_installed {
            GameState::DependecieNotInstalled
        } else if !config.is_game_installed {
            GameState::GameNotInstalled
        } else if needs_update {
            GameState::GameNeedUpdate
        } else if !config.is_game_patched {
            GameState::GameNotPatched
        } else {
            GameState::GameInstalled
        }
    }
}

/// Computing the state is deterministic: two computations over the same
/// configuration and the same update check agree. Since the computation
/// reads nothing else, calling it twice in a row without a mutation in
/// between returns the same state.
pub proof fn lemma_state_computation_deterministic(
    c1: GameConfig,
    c2: GameConfig,
    u1: bool,
    u2: bool,
)
    requires
        c1 == c2,
        u1 == u2,
    ensures
        spec_current_state(c1, u1) == spec_current_state(c2, u2),
{
}

/// Resuming never re-runs a completed stage: with the compatibility
/// runtime and the graphics layer recorded as installed and the fonts
/// not yet, the computed state is exactly the font stage, whatever the
/// remaining flags or the update check say.
pub proof fn lemma_resume_skips_completed_stages(c: GameConfig, needs_update: bool)
    requires
        c.is_wine_installed,
        c.is_dxvk_installed,
        !c.is_font_installed,
    ensures
        spec_current_state(c, needs_update) == GameState::FontNotInstalled,
{
}

} // verus!
