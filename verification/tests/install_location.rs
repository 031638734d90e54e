use pyoxidizer_config::config::InstallLocation;
use pyoxidizer_config::error::ConfigError;
use pyoxidizer_config::install_location::resolve_install_location;

#[test]
fn embedded_parses_to_the_embedded_variant() {
    assert!(matches!(resolve_install_location("embedded"), Ok(InstallLocation::Embedded)));
}

#[test]
fn app_relative_carries_its_path() {
    match resolve_install_location("app-relative:lib/app") {
        Ok(InstallLocation::AppRelative { path }) => assert_eq!(path, "lib/app"),
        other => panic!("unexpected: {:?}", other),
    }
}

#[test]
fn unknown_install_location_is_reported() {
    match resolve_install_location("bogus") {
        Err(ConfigError::InvalidInstallLocation { value }) => assert_eq!(value, "bogus"),
        other => panic!("unexpected: {:?}", other),
    }
}
