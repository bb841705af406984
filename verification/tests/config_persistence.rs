use babylonia_terminal_sdk::config_codec::parse_config;
use babylonia_terminal_sdk::config_codec::render_config;
use babylonia_terminal_sdk::game_config::GameConfig;

fn sample_config() -> GameConfig {
    GameConfig {
        config_dir: String::from("/home/user/.babylonia-terminal"),
        is_wine_installed: true,
        is_dxvk_installed: false,
        is_font_installed: true,
        is_dependecies_installed: false,
        game_dir: Some(String::from("/games/pgr")),
        is_game_installed: true,
        is_game_patched: false,
        launch_options: Some(String::from("gamemoderun %command% -skip-intro")),
    }
}

#[test]
fn round_trip_reproduces_every_field() {
    let config = sample_config();
    let document = render_config(&config);
    let read_back = parse_config(&document).expect("the rendering must parse");
    assert_eq!(read_back, config);
}

#[test]
fn round_trip_keeps_absent_options_absent() {
    let config = GameConfig::new(String::from("/tmp/cfg"));
    assert!(config.game_dir.is_none());
    assert!(config.launch_options.is_none());
    let document = render_config(&config);
    let read_back = parse_config(&document).expect("the rendering must parse");
    assert_eq!(read_back, config);
    assert!(read_back.game_dir.is_none());
    assert!(read_back.launch_options.is_none());
}

#[test]
fn round_trip_survives_quotes_and_backslashes() {
    let mut config = sample_config();
    config.config_dir = String::from("C:\\Users\\someone\\\"quoted\"\\dir");
    config.game_dir = Some(String::from("/odd\\path/with \"quotes\""));
    config.launch_options = Some(String::from("echo \"%command%\""));
    let document = render_config(&config);
    let read_back = parse_config(&document).expect("the rendering must parse");
    assert_eq!(read_back, config);
}

#[test]
fn rendering_is_the_expected_document() {
    let config = GameConfig::new(String::from("/cfg"));
    let document = render_config(&config);
    assert_eq!(
        document,
        "{\"config_dir\":\"/cfg\",\"is_wine_installed\":false,\
         \"is_dxvk_installed\":false,\"is_font_installed\":false,\
         \"is_dependecies_installed\":false,\"game_dir\":null,\
         \"is_game_installed\":false,\"is_game_patched\":false,\
         \"launch_options\":null}"
    );
}

#[test]
fn garbage_does_not_parse() {
    assert!(parse_config("").is_none());
    assert!(parse_config("not a config document").is_none());
    assert!(parse_config("{\"config_dir\":\"/cfg\"").is_none());
}

#[test]
fn trailing_text_is_rejected() {
    let document = render_config(&GameConfig::new(String::from("/cfg")));
    let with_trailer = format!("{} ", document);
    assert!(parse_config(&with_trailer).is_none());
}

#[test]
fn get_config_falls_back_to_defaults() {
    let default_dir = String::from("/home/user/.babylonia-terminal");
    let missing = GameConfig::get_config(&None, default_dir.clone());
    assert_eq!(missing, GameConfig::new(default_dir.clone()));
    let unreadable = GameConfig::get_config(
        &Some(String::from("{broken")),
        default_dir.clone(),
    );
    assert_eq!(unreadable, GameConfig::new(default_dir.clone()));
    let stored = sample_config();
    let loaded = GameConfig::get_config(&Some(render_config(&stored)), default_dir);
    assert_eq!(loaded, stored);
}

#[test]
fn setters_touch_only_their_field() {
    let mut config = sample_config();
    let before = config.clone();
    config.set_game_dir(None);
    assert!(config.game_dir.is_none());
    assert_eq!(config.config_dir, before.config_dir);
    assert_eq!(config.launch_options, before.launch_options);
    config.set_launch_options(String::from("-fullscreen %command%"));
    assert_eq!(
        config.launch_options.as_deref(),
        Some("-fullscreen %command%")
    );
    assert_eq!(config.is_game_installed, before.is_game_installed);
}
