use babylonia_terminal_sdk::components::ProtonComponent;
use babylonia_terminal_sdk::components::WineComponent;
use babylonia_terminal_sdk::components::PROTON_DEV;
use babylonia_terminal_sdk::components::PROTON_REPO;
use babylonia_terminal_sdk::error::LauncherError;
use babylonia_terminal_sdk::game_patcher::game_executable_path;
use babylonia_terminal_sdk::game_patcher::krsdk_external_path;
use babylonia_terminal_sdk::game_patcher::unity_rename_decision;
use babylonia_terminal_sdk::game_patcher::unity_resources_fixed_path;
use babylonia_terminal_sdk::game_patcher::unity_resources_path;
use babylonia_terminal_sdk::game_patcher::UnityResourcesAction;
use babylonia_terminal_sdk::get_game_name;
use babylonia_terminal_sdk::get_game_name_with_executable;
use babylonia_terminal_sdk::github_requester::select_release;
use babylonia_terminal_sdk::github_requester::Asset;
use babylonia_terminal_sdk::github_requester::ComponentsDownloader;
use babylonia_terminal_sdk::github_requester::GithubRelease;
use babylonia_terminal_sdk::manifest::CdnList;
use babylonia_terminal_sdk::manifest::Changelog;
use babylonia_terminal_sdk::manifest::Config;
use babylonia_terminal_sdk::manifest::CurrentGameInfo;
use babylonia_terminal_sdk::manifest::DefaultInfo;
use babylonia_terminal_sdk::manifest::Download;
use babylonia_terminal_sdk::manifest::Experiment;
use babylonia_terminal_sdk::manifest::Ext;
use babylonia_terminal_sdk::manifest::GameInfo;
use babylonia_terminal_sdk::manifest::PreviousGameInfo;
use babylonia_terminal_sdk::manifest::ResCheck;
use babylonia_terminal_sdk::manifest::Resource;
use babylonia_terminal_sdk::manifest::ResourcesDiff;
use babylonia_terminal_sdk::manifest::ResourcesLogin;
use babylonia_terminal_sdk::manifest::ZipConfig;
use babylonia_terminal_sdk::strip_string_suffix;

fn asset(name: &str) -> Asset {
    Asset {
        url: String::from("https://api.example/asset"),
        id: 1,
        node_id: String::from("node"),
        name: String::from(name),
        content_type: String::from("application/gzip"),
        state: String::from("uploaded"),
        size: 123,
        download_count: 7,
        created_at: String::from("2024-01-01"),
        updated_at: String::from("2024-01-02"),
        browser_download_url: format!("https://dl.example/{}", name),
    }
}

fn release(tag: &str, assets: Vec<Asset>) -> GithubRelease {
    GithubRelease {
        url: String::from("https://api.example/release"),
        assets_url: String::from("https://api.example/release/assets"),
        tag_name: String::from(tag),
        target_commitish: String::from("main"),
        name: String::from(tag),
        assets,
    }
}

fn game_info(version: &str) -> GameInfo {
    GameInfo {
        chunk_download_switch: 1,
        key_file_check_switch: 0,
        resources_login: ResourcesLogin {
            host: String::from("https://login.example"),
            login_switch: 0,
        },
        check_exe_is_running: 0,
        hash_cache_check_acc_switch: 0,
        fingerprints: vec![],
        default: DefaultInfo {
            cdn_list: vec![
                CdnList {
                    p: 1,
                    k1: 1,
                    k2: 1,
                    url: String::from("https://cdn.example/"),
                },
                CdnList {
                    p: 2,
                    k1: 0,
                    k2: 0,
                    url: String::from("https://cdn-b.example/"),
                },
            ],
            changelog: Changelog {},
            changelog_visible: 0,
            config: Config {
                index_file_md5: String::new(),
                un_compress_size: 0,
                base_url: String::new(),
                size: 0,
                patch_type: String::new(),
                zip_config: ZipConfig {
                    index_file_md5: String::new(),
                    un_compress_size: 0,
                    ext: Ext { max_file_size: 0 },
                    base_url: String::new(),
                    size: 0,
                    index_file: String::new(),
                    version: String::new(),
                },
                index_file: String::new(),
                resources_exclude_path_need_update: vec![],
                version: String::new(),
                resources_exclude_path: vec![],
                patch_config: vec![],
            },
            resources: String::from("resource/1.5.0/resources.json"),
            resources_base_path: String::from("zip"),
            resources_diff: ResourcesDiff {
                current_game_info: CurrentGameInfo {
                    file_name: String::new(),
                    md5: String::new(),
                    version: String::new(),
                },
                previous_game_info: PreviousGameInfo {
                    file_name: String::new(),
                    md5: String::new(),
                    version: String::new(),
                },
            },
            resources_exclude_path: vec![],
            resources_exclude_path_need_update: vec![],
            version: String::from(version),
        },
        rhioption_switch: 0,
        predownload_switch: 0,
        rhioption_list: vec![],
        experiment: Experiment {
            download: Download {
                download_cdn_select_test_duration: String::new(),
                download_read_block_timeout: String::new(),
            },
            res_check: ResCheck {
                file_chunk_check_switch: String::new(),
                file_size_check_switch: String::new(),
                res_valid_check_time_out: String::new(),
                file_check_white_list_config: String::new(),
            },
        },
        key_file_check_list: vec![],
    }
}

#[test]
fn game_names_are_fixed() {
    assert_eq!(get_game_name(), "PGR");
    assert_eq!(get_game_name_with_executable(), "PGR.exe");
}

#[test]
fn update_is_pending_exactly_on_a_version_change() {
    let cached = game_info("1.5.0");
    assert!(!cached.need_update(&game_info("1.5.0")));
    assert!(cached.need_update(&game_info("1.6.0")));
}

#[test]
fn urls_are_assembled_from_the_manifest() {
    let info = game_info("1.5.0");
    assert_eq!(info.get_first_cdn(), "https://cdn.example/");
    assert_eq!(info.get_resource_base_path(), "zip/");
    assert_eq!(
        info.resources_url(),
        "https://cdn.example/resource/1.5.0/resources.json"
    );
    let resource = Resource {
        dest: String::from("data/file.pak"),
        md5: String::from("00"),
        size: 1,
    };
    assert_eq!(
        resource.build_download_url(&info.get_first_cdn(), &info.get_resource_base_path()),
        "https://cdn.example/zip/data/file.pak"
    );
}

#[test]
fn release_selection_answers_only_indices_in_range() {
    let releases = vec![release("9.0", vec![]), release("8.26", vec![])];
    assert_eq!(select_release(&releases, 1).unwrap().tag_name, "8.26");
    let err = select_release(&releases, 2).expect_err("out of range");
    assert_eq!(err, LauncherError::WrongReleaseIndex);
    assert_eq!(
        err.message(),
        "Wrong index when trying to get the github release"
    );
}

#[test]
fn component_assets_sit_at_their_known_positions() {
    let wine_release = release(
        "GE-Proton9-4",
        vec![asset("checksums.txt"), asset("wine-ge.tar.xz")],
    );
    assert_eq!(
        ComponentsDownloader::pick_wine_asset(&wine_release)
            .unwrap()
            .name,
        "wine-ge.tar.xz"
    );
    let dxvk_release = release("v2.3", vec![asset("dxvk-2.3.tar.gz")]);
    assert_eq!(
        ComponentsDownloader::pick_dxvk_asset(&dxvk_release)
            .unwrap()
            .name,
        "dxvk-2.3.tar.gz"
    );
    let empty = release("empty", vec![]);
    let err = ComponentsDownloader::pick_wine_asset(&empty).expect_err("no assets");
    assert_eq!(err, LauncherError::AssetNotFound);
    assert_eq!(err.message(), "Asset not found in the github release");
}

#[test]
fn components_live_under_the_launcher_directory() {
    let proton = ProtonComponent::new(String::from("/cfg"));
    assert_eq!(proton.path, "/cfg/proton");
    assert_eq!(proton.github_release_index, 0);
    let mut wine = WineComponent::new(String::from("/cfg"));
    assert_eq!(wine.path, "/cfg/wine");
    wine.set_github_release_index(3);
    assert_eq!(wine.github_release_index, 3);
    assert_eq!(PROTON_DEV, "GloriousEggroll");
    assert_eq!(PROTON_REPO, "proton-ge-custom");
}

#[test]
fn archive_names_lose_their_endings() {
    assert_eq!(
        ProtonComponent::extracted_dir_name("GE-Proton9-4.tar.gz").as_deref(),
        Some("GE-Proton9-4")
    );
    assert_eq!(ProtonComponent::extracted_dir_name("GE-Proton9-4.zip"), None);
    assert_eq!(
        WineComponent::extracted_dir_name("wine-9.0-amd64.tar.xz").as_deref(),
        Some("wine-9.0-amd64")
    );
    assert_eq!(strip_string_suffix("short", ".tar.gz.long"), None);
}

#[test]
fn patcher_paths_point_into_the_game_tree() {
    assert_eq!(
        unity_resources_path("/games"),
        "/games/PGR/PGR_Data/Resources/unity%20default%20resources"
    );
    assert_eq!(
        unity_resources_fixed_path("/games"),
        "/games/PGR/PGR_Data/Resources/unity default resources"
    );
    assert_eq!(
        krsdk_external_path("/games"),
        "/games/PGR/PGR_Data/Plugins/KRSDKExternal.exe"
    );
    assert_eq!(game_executable_path("/games"), "/games/PGR/PGR.exe");
}

#[test]
fn unity_rename_is_tolerant_but_not_blind() {
    assert_eq!(
        unity_rename_decision(true, false).unwrap(),
        UnityResourcesAction::RenameToFixed
    );
    assert_eq!(
        unity_rename_decision(true, true).unwrap(),
        UnityResourcesAction::RenameToFixed
    );
    assert_eq!(
        unity_rename_decision(false, true).unwrap(),
        UnityResourcesAction::AlreadyFixed
    );
    let err = unity_rename_decision(false, false).expect_err("nothing to patch");
    assert_eq!(err, LauncherError::UnityResourcesMissing);
    assert_eq!(
        err.message(),
        "The resources file doesn't exists ? Please restart the launcher and make a repair."
    );
}
