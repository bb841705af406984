//! The state message handed across the UI bridge: the same eight
//! pipeline states, in the wire naming the UI side uses.

use vstd::prelude::*;

use crate::game_state::GameState;

verus! {

/// The pipeline states as the UI bridge names them.
#[derive(Debug, PartialEq, Eq, Clone, Copy, Structural)]
pub enum States {
    ProtonNotInstalled,
    DxvkNotInstalled,
    FontNotInstalled,
    DependecieNotInstalled,
    GameNotInstalled,
    GameNeedUpdate,
    GameNotPatched,
    GameInstalled,
}

/// The wire name of each pipeline state.
pub open spec fn spec_msg_state(s: GameState) -> States {
    match s {
        GameState::ProtonNotInstalled => States::ProtonNotInstalled,
        GameState::DXVKNotInstalled => States::DxvkNotInstalled,
        GameState::FontNotInstalled => States::FontNotInstalled,
        GameState::DependecieNotInstalled => States::DependecieNotInstalled,
        GameState::GameNotInstalled => States::GameNotInstalled,
        GameState::GameNeedUpdate => States::GameNeedUpdate,
        GameState::GameNotPatched => States::GameNotPatched,
        GameState::GameInstalled => States::GameInstalled,
    }
}

/// One state report to the UI.
#[derive(Debug, PartialEq, Eq, Clone, Copy, Structural)]
pub struct GameStateMessage {
    pub state: States,
}

impl GameStateMessage {
    /// Translate a pipeline state into its wire message.
    pub fn from_sdk_state_to_msg_state(state: GameState) -> (m: GameStateMessage)
        ensures
            m.state == spec_msg_state(state),
    {
        let game_state = match state {
            GameState::ProtonNotInstalled => States::ProtonNotInstalled,
            GameState::DXVKNotInstalled => States::DxvkNotInstalled,
            GameState::FontNotInstalled => States::FontNotInstalled,
            GameState::DependecieNotInstalled => States::DependecieNotInstalled,
            GameState::GameNotInstalled => States::GameNotInstalled,
            GameState::GameNeedUpdate => States::GameNeedUpdate,
            GameState::GameNotPatched => States::GameNotPatched,
            GameState::GameInstalled => States::GameInstalled,
        };
        GameStateMessage { state: game_state }
    }
}

} // verus!
