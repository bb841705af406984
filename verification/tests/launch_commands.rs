use babylonia_terminal_sdk::error::LauncherError;
use babylonia_terminal_sdk::game_config::GameConfig;
use babylonia_terminal_sdk::game_manager::split_whitespace_tokens;
use babylonia_terminal_sdk::game_manager::GameManager;

fn base_parts() -> (String, String, String) {
    (
        String::from("/usr/bin/python3"),
        String::from("/cfg/proton/proton"),
        String::from("/g/game.exe"),
    )
}

#[test]
fn template_splices_around_the_runtime_invocation() {
    let (python, proton, binary) = base_parts();
    let template = Some(String::from("gamemoderun %command% -skip-intro"));
    let command =
        GameManager::build_launch_command(&python, &proton, &binary, &template).unwrap();
    assert_eq!(
        command,
        vec![
            "gamemoderun",
            "/usr/bin/python3",
            "/cfg/proton/proton",
            "run",
            "/g/game.exe",
            "-skip-intro",
        ]
    );
}

#[test]
fn template_without_placeholder_is_a_reported_error() {
    let (python, proton, binary) = base_parts();
    let template = Some(String::from("gamemoderun -skip-intro"));
    let err = GameManager::build_launch_command(&python, &proton, &binary, &template)
        .expect_err("a template without %command% must be refused");
    assert_eq!(err, LauncherError::MissingCommandPlaceholder);
    assert_eq!(
        err.message(),
        "You forget to put %command% in your custom launch command"
    );
}

#[test]
fn no_template_runs_the_runtime_directly() {
    let (python, proton, binary) = base_parts();
    let command = GameManager::build_launch_command(&python, &proton, &binary, &None).unwrap();
    assert_eq!(
        command,
        vec!["/usr/bin/python3", "/cfg/proton/proton", "run", "/g/game.exe"]
    );
}

#[test]
fn placeholder_alone_wraps_nothing() {
    let (python, proton, binary) = base_parts();
    let template = Some(String::from("%command%"));
    let command =
        GameManager::build_launch_command(&python, &proton, &binary, &template).unwrap();
    assert_eq!(
        command,
        vec!["/usr/bin/python3", "/cfg/proton/proton", "run", "/g/game.exe"]
    );
}

#[test]
fn tokenizer_splits_at_any_whitespace_run() {
    let tokens = split_whitespace_tokens("  gamemoderun \t%command%\n -skip-intro ");
    assert_eq!(tokens, vec!["gamemoderun", "%command%", "-skip-intro"]);
    assert!(split_whitespace_tokens("").is_empty());
    assert!(split_whitespace_tokens(" \t\n").is_empty());
}

#[test]
fn explicit_options_win_over_persisted_ones() {
    let mut config = GameConfig::new(String::from("/cfg"));
    config.set_launch_options(String::from("persisted %command%"));
    let explicit = Some(String::from("explicit %command%"));
    assert_eq!(
        GameManager::effective_launch_options(&explicit, &config),
        explicit
    );
    assert_eq!(
        GameManager::effective_launch_options(&None, &config),
        Some(String::from("persisted %command%"))
    );
    let bare = GameConfig::new(String::from("/cfg"));
    assert_eq!(GameManager::effective_launch_options(&None, &bare), None);
}

#[test]
fn game_log_carries_both_sections() {
    let log = GameManager::render_game_log(
        &String::from("out line\n"),
        &String::from("err line\n"),
    );
    assert_eq!(
        log,
        "--- stdout ---\nout line\n--- stderr ---\nerr line\n"
    );
}
