use rit::{branch_or_default, getenv, Config, ConfigError};

fn sample_config(branch: &str) -> Config {
    Config::new(
        branch.to_string(),
        vec![("main".to_string(), 123), ("staging".to_string(), 77)],
        vec![(
            "main".to_string(),
            vec![("lobby".to_string(), 10), ("arena".to_string(), 20)],
        )],
        Some("Players".to_string()),
        Some("v1".to_string()),
    )
}

#[test]
fn universe_id_of_configured_branch() {
    assert_eq!(sample_config("main").get_universe_id().unwrap(), 123);
    assert_eq!(sample_config("staging").get_universe_id().unwrap(), 77);
}

#[test]
fn universe_id_of_absent_branch_is_an_error() {
    let err = sample_config("dev").get_universe_id().unwrap_err();
    assert!(matches!(err, ConfigError::UniverseNotFound { .. }));
    assert_eq!(err.message(), "No universe id found for branch dev");
}

#[test]
fn places_of_configured_branch() {
    let config = sample_config("main");
    let places = config.get_places().unwrap();
    assert_eq!(places.len(), 2);
    assert_eq!(places[0].0, "lobby");
    assert_eq!(places[0].1, 10);
    assert_eq!(places[1].0, "arena");
    assert_eq!(places[1].1, 20);
}

#[test]
fn places_of_absent_branch_is_an_error() {
    let config = sample_config("staging");
    let err = config.get_places().unwrap_err();
    assert!(matches!(err, ConfigError::PlacesNotFound { .. }));
    assert_eq!(err.message(), "No places found for branch staging");
}

#[test]
fn datastore_defaults_are_handed_back() {
    let config = sample_config("main");
    let (name, scope) = config.get_datastore();
    assert_eq!(name.as_deref(), Some("Players"));
    assert_eq!(scope.as_deref(), Some("v1"));
}

#[test]
fn branch_defaults_to_main() {
    assert_eq!(branch_or_default(None), "main");
    assert_eq!(branch_or_default(Some("staging".to_string())), "staging");
}

#[test]
fn explicit_credential_wins() {
    let r = getenv(
        Some("flag-key".to_string()),
        Some("env-key".to_string()),
        "OPENCLOUD_KEY",
    );
    assert_eq!(r.unwrap(), "flag-key");
}

#[test]
fn credential_falls_back_to_environment() {
    let r = getenv(None, Some("env-key".to_string()), "OPENCLOUD_KEY");
    assert_eq!(r.unwrap(), "env-key");
}

#[test]
fn missing_credential_names_the_variable() {
    let err = getenv(None, None, "OPENCLOUD_KEY").unwrap_err();
    assert_eq!(err.var_name, "OPENCLOUD_KEY");
    assert_eq!(
        err.message(),
        "environment variable \"OPENCLOUD_KEY\" is not set"
    );
}
