use oxi_launcher::errors::LaunchError;
use oxi_launcher::launch::{
    delegated_install_check, direct_launch_check, direct_launch_exit, find_game_id,
    game_executable_path, resolve_game_id, rungame_uri,
};

#[test]
fn executable_path_is_under_the_game_directory() {
    assert_eq!(
        game_executable_path("/games/ffxiv"),
        "/games/ffxiv/game/ffxiv_dx11.exe"
    );
}

#[test]
fn missing_executable_stops_the_direct_launch() {
    assert_eq!(
        direct_launch_check(false).unwrap_err(),
        LaunchError::ExecutableNotFound
    );
    assert!(direct_launch_check(true).is_ok());
}

#[test]
fn abnormal_exit_surfaces_the_code() {
    assert!(direct_launch_exit(true, Some(0)).is_ok());
    assert_eq!(
        direct_launch_exit(false, Some(3)).unwrap_err(),
        LaunchError::AbnormalExit(Some(3))
    );
    assert_eq!(
        direct_launch_exit(false, None).unwrap_err(),
        LaunchError::AbnormalExit(None)
    );
}

#[test]
fn missing_front_end_stops_the_delegated_launch() {
    assert_eq!(
        delegated_install_check(false).unwrap_err(),
        LaunchError::DependencyMissing
    );
    assert!(delegated_install_check(true).is_ok());
}

#[test]
fn catalog_lookup_finds_the_registered_game() {
    let catalog = r#"[{"slug":"other","id":1},{"slug":"ffxivsapphire","id":42}]"#;
    assert_eq!(resolve_game_id(catalog).unwrap(), 42);
}

#[test]
fn catalog_lookup_takes_the_first_matching_entry() {
    let catalog = r#"[{"slug":"ffxivsapphire","id":7},{"slug":"ffxivsapphire","id":8}]"#;
    assert_eq!(resolve_game_id(catalog).unwrap(), 7);
}

#[test]
fn unconfigured_game_is_reported() {
    let no_match = r#"[{"slug":"other","id":1}]"#;
    assert_eq!(
        resolve_game_id(no_match).unwrap_err(),
        LaunchError::GameNotConfigured
    );
    let no_id = r#"[{"slug":"ffxivsapphire"}]"#;
    assert_eq!(
        resolve_game_id(no_id).unwrap_err(),
        LaunchError::GameNotConfigured
    );
    assert_eq!(
        resolve_game_id("not json").unwrap_err(),
        LaunchError::GameNotConfigured
    );
    assert_eq!(
        resolve_game_id("[]").unwrap_err(),
        LaunchError::GameNotConfigured
    );
}

#[test]
fn entries_without_slugs_are_skipped() {
    let v = vec![
        (None, Some(1)),
        (Some("ffxivsapphire".to_string()), Some(9)),
    ];
    assert_eq!(find_game_id(&v), Some(9));
}

#[test]
fn rungame_target_carries_the_id() {
    assert_eq!(rungame_uri(42), "lutris:rungameid/42");
    assert_eq!(rungame_uri(0), "lutris:rungameid/0");
}
