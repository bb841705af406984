//! The persisted launcher configuration: one flat document holding the
//! completion flag of every pipeline stage, the chosen game directory and
//! the user's launch options. It is the single source of truth for the
//! installation state machine.

use vstd::prelude::*;

verus! {

/// The launcher configuration as it is persisted on disk.
///
/// The six booleans are completion flags of the installation pipeline;
/// each is set once by the corresponding stage and only `update_game`
/// ever clears one (the game flags, to force a re-synchronization).
#[derive(Debug, Clone, PartialEq, Eq)]
pub struct GameConfig {
    pub config_dir: String,
    pub is_wine_installed: bool,
    pub is_dxvk_installed: bool,
    pub is_font_installed: bool,
    pub is_dependecies_installed: bool,
    pub game_dir: Option<String>,
    pub is_game_installed: bool,
    pub is_game_patched: bool,
    pub launch_options: Option<String>,
}

/// Mathematical model of a [`GameConfig`]: strings as character sequences.
pub struct GameConfigView {
    pub config_dir: Seq<char>,
    pub is_wine_installed: bool,
    pub is_dxvk_installed: bool,
    pub is_font_installed: bool,
    pub is_dependecies_installed: bool,
    pub game_dir: Option<Seq<char>>,
    pub is_game_installed: bool,
    pub is_game_patched: bool,
    pub launch_options: Option<Seq<char>>,
}

impl View for GameConfig {
    type V = GameConfigView;

    open spec fn view(&self) -> GameConfigView {
        GameConfigView {
            config_dir: self.config_dir@,
            is_wine_installed: self.is_wine_installed,
            is_dxvk_installed: self.is_dxvk_installed,
            is_font_installed: self.is_font_installed,
            is_dependecies_installed: self.is_dependecies_installed,
            game_dir: match self.game_dir {
                Some(ref d) => Some(d@),
                None => None,
            },
            is_game_installed: self.is_game_installed,
            is_game_patched: self.is_game_patched,
            launch_options: match self.launch_options {
                Some(ref o) => Some(o@),
                None => None,
            },
        }
    }
}

/// A path value as it travels through the configuration documents.
#[derive(Debug, Clone, PartialEq, Eq)]
pub struct GameConfigPath {
    pub path: String,
}

/// The default configuration for a launcher directory: nothing
/// installed, nothing chosen.
pub open spec fn spec_default_config(config_dir: Seq<char>) -> GameConfigView {
    GameConfigView {
        config_dir,
        is_wine_installed: false,
        is_dxvk_installed: false,
        is_font_installed: false,
        is_dependecies_installed: false,
        game_dir: None,
        is_game_installed: false,
        is_game_patched: false,
        launch_options: None,
    }
}

impl GameConfig {
    /// A fresh configuration: nothing installed yet, no game directory
    /// chosen, no launch options. This is also what a missing or
    /// unreadable configuration file falls back to.
    pub fn new(config_dir: String) -> (c: GameConfig)
        ensures
            c@ == spec_default_config(config_dir@),
            c@.config_dir == config_dir@,
            !c.is_wine_installed,
            !c.is_dxvk_installed,
            !c.is_font_installed,
            !c.is_dependecies_installed,
            c.game_dir is None,
            !c.is_game_installed,
            !c.is_game_patched,
            c.launch_options is None,
    {
        GameConfig {
            config_dir,
            is_wine_installed: false,
            is_dxvk_installed: false,
            is_font_installed: false,
            is_dependecies_installed: false,
            game_dir: None,
            is_game_installed: false,
            is_game_patched: false,
            launch_options: None,
        }
    }

    /// Choose (or clear) the game directory; every other field is kept.
    pub fn set_game_dir(&mut self, path: Option<String>)
        ensures
            final(self).game_dir == path,
            final(self).config_dir == old(self).config_dir,
            final(self).is_wine_installed == old(self).is_wine_installed,
            final(self).is_dxvk_installed == old(self).is_dxvk_installed,
            final(self).is_font_installed == old(self).is_font_installed,
            final(self).is_dependecies_installed == old(self).is_dependecies_installed,
            final(self).is_game_installed == old(self).is_game_installed,
            final(self).is_game_patched == old(self).is_game_patched,
            final(self).launch_options == old(self).launch_options,
    {
        self.game_dir = path;
    }

    /// Set the user's launch-option template; every other field is kept.
    pub fn set_launch_options(&mut self, command: String)
        ensures
            final(self).launch_options == Some(command),
            final(self).config_dir == old(self).config_dir,
            final(self).is_wine_installed == old(self).is_wine_installed,
            final(self).is_dxvk_installed == old(self).is_dxvk_installed,
            final(self).is_font_installed == old(self).is_font_installed,
            final(self).is_dependecies_installed == old(self).is_dependecies_installed,
            final(self).game_dir == old(self).game_dir,
            final(self).is_game_installed == old(self).is_game_installed,
            final(self).is_game_patched == old(self).is_game_patched,
    {
        self.launch_options = Some(command);
    }
}

} // verus!
