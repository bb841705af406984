use babylonia_terminal_sdk::game_config::GameConfig;
use babylonia_terminal_sdk::game_manager::GameManager;
use babylonia_terminal_sdk::game_state::GameState;
use babylonia_terminal_sdk::messages::GameStateMessage;
use babylonia_terminal_sdk::messages::States;

fn fresh_config() -> GameConfig {
    GameConfig::new(String::from("/home/user/.babylonia-terminal"))
}

#[test]
fn state_computation_is_idempotent() {
    let mut config = fresh_config();
    config.is_wine_installed = true;
    config.is_dxvk_installed = true;
    config.is_font_installed = true;
    let first = GameState::get_current_state(&config, false);
    let second = GameState::get_current_state(&config, false);
    assert_eq!(first, second);
    assert_eq!(first, GameState::DependecieNotInstalled);
}

#[test]
fn fresh_config_starts_at_runtime_stage() {
    let config = fresh_config();
    assert_eq!(
        GameState::get_current_state(&config, false),
        GameState::ProtonNotInstalled
    );
}

#[test]
fn resume_skips_completed_stages() {
    let mut config = fresh_config();
    config.is_wine_installed = true;
    config.is_dxvk_installed = true;
    assert_eq!(
        GameState::get_current_state(&config, false),
        GameState::FontNotInstalled
    );
    assert_eq!(
        GameState::get_current_state(&config, true),
        GameState::FontNotInstalled
    );
}

#[test]
fn pipeline_progresses_monotonically_to_installed() {
    let mut config = fresh_config();
    let mut visited: Vec<GameState> = Vec::new();
    let mut iterations = 0;
    loop {
        assert!(iterations < 8, "the pipeline must settle within 8 iterations");
        let state = GameState::get_current_state(&config, false);
        assert!(
            !visited.contains(&state),
            "every state is visited at most once"
        );
        visited.push(state);
        if state == GameState::GameInstalled {
            break;
        }
        GameManager::apply_stage(&mut config, state);
        iterations += 1;
    }
    assert_eq!(
        visited,
        vec![
            GameState::ProtonNotInstalled,
            GameState::DXVKNotInstalled,
            GameState::FontNotInstalled,
            GameState::DependecieNotInstalled,
            GameState::GameNotInstalled,
            GameState::GameNotPatched,
            GameState::GameInstalled,
        ]
    );
}

#[test]
fn update_triggers_reinstall() {
    let mut config = fresh_config();
    config.is_wine_installed = true;
    config.is_dxvk_installed = true;
    config.is_font_installed = true;
    config.is_dependecies_installed = true;
    config.is_game_installed = true;
    config.is_game_patched = true;
    assert_eq!(
        GameState::get_current_state(&config, true),
        GameState::GameNeedUpdate
    );
    GameManager::update_game(&mut config);
    assert!(!config.is_game_installed);
    assert!(!config.is_game_patched);
    assert_eq!(
        GameState::get_current_state(&config, false),
        GameState::GameNotInstalled
    );
    assert_eq!(
        GameState::get_current_state(&config, true),
        GameState::GameNotInstalled
    );
}

#[test]
fn installed_game_with_current_manifest_is_terminal() {
    let mut config = fresh_config();
    config.is_wine_installed = true;
    config.is_dxvk_installed = true;
    config.is_font_installed = true;
    config.is_dependecies_installed = true;
    config.is_game_installed = true;
    config.is_game_patched = true;
    assert_eq!(
        GameState::get_current_state(&config, false),
        GameState::GameInstalled
    );
}

#[test]
fn patch_stage_comes_after_update_check() {
    let mut config = fresh_config();
    config.is_wine_installed = true;
    config.is_dxvk_installed = true;
    config.is_font_installed = true;
    config.is_dependecies_installed = true;
    config.is_game_installed = true;
    assert_eq!(
        GameState::get_current_state(&config, false),
        GameState::GameNotPatched
    );
}

#[test]
fn state_messages_mirror_every_state() {
    let pairs = [
        (GameState::ProtonNotInstalled, States::ProtonNotInstalled),
        (GameState::DXVKNotInstalled, States::DxvkNotInstalled),
        (GameState::FontNotInstalled, States::FontNotInstalled),
        (
            GameState::DependecieNotInstalled,
            States::DependecieNotInstalled,
        ),
        (GameState::GameNotInstalled, States::GameNotInstalled),
        (GameState::GameNeedUpdate, States::GameNeedUpdate),
        (GameState::GameNotPatched, States::GameNotPatched),
        (GameState::GameInstalled, States::GameInstalled),
    ];
    for (state, expected) in pairs {
        assert_eq!(
            GameStateMessage::from_sdk_state_to_msg_state(state).state,
            expected
        );
    }
}
