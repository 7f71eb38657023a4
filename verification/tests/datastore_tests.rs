use rit::{
    prepare_delete, prepare_get, prepare_increment, prepare_list_entries, prepare_list_stores,
    prepare_list_versions, prepare_set, resolve_name_scope, CommandError, Config, ConfigError,
    DataStore, DataStoreCommands, ListEntrySortOrder, PreparedRequest,
};

fn config_with_defaults() -> Config {
    Config::new(
        "main".to_string(),
        vec![("main".to_string(), 123)],
        vec![],
        Some("Players".to_string()),
        Some("v1".to_string()),
    )
}

fn config_without_defaults() -> Config {
    Config::new(
        "main".to_string(),
        vec![("main".to_string(), 123)],
        vec![],
        None,
        None,
    )
}

#[test]
fn get_resolves_from_configured_defaults() {
    // The resolution scenario: universe 123, name "Players", scope "v1", all
    // from the configuration, with no explicit flag.
    let config = config_with_defaults();
    assert_eq!(config.get_universe_id().unwrap(), 123);
    let req = prepare_get(&config, None, None, "user_1".to_string()).unwrap();
    assert_eq!(req.name, "Players");
    assert_eq!(req.scope, "v1");
    assert_eq!(req.key, "user_1");
}

#[test]
fn explicit_name_and_scope_win() {
    let config = config_with_defaults();
    let (name, scope) = resolve_name_scope(
        &config,
        Some("Inventory".to_string()),
        Some("v2".to_string()),
    )
    .unwrap();
    assert_eq!(name, "Inventory");
    assert_eq!(scope, "v2");
}

#[test]
fn missing_name_fails_before_any_request_exists() {
    // With neither an explicit name nor a configured default, the operation
    // fails during preparation: no request value exists that could reach the
    // network client.
    let config = config_without_defaults();
    let err = prepare_get(&config, None, None, "k".to_string()).unwrap_err();
    assert_eq!(err, ConfigError::MissingDatastoreName);

    let err = prepare_list_entries(&config, None, None, false, None, None, None).unwrap_err();
    assert_eq!(err, ConfigError::MissingDatastoreName);
}

#[test]
fn missing_scope_fails_when_name_is_given() {
    let config = config_without_defaults();
    let err = prepare_get(&config, Some("Players".to_string()), None, "k".to_string()).unwrap_err();
    assert_eq!(err, ConfigError::MissingDatastoreScope);
}

#[test]
fn all_scopes_leaves_the_scope_unset() {
    // Even with a default scope configured and an explicit scope given, an
    // all-scopes listing asks for every scope and carries no scope field.
    let config = config_with_defaults();
    let req = prepare_list_entries(
        &config,
        None,
        Some("v2".to_string()),
        true,
        None,
        None,
        None,
    )
    .unwrap();
    assert!(req.all_scopes);
    assert_eq!(req.scope, None);
    assert_eq!(req.name, "Players");
}

#[test]
fn all_scopes_needs_no_scope_at_all() {
    let config = config_without_defaults();
    let req = prepare_list_entries(
        &config,
        Some("Players".to_string()),
        None,
        true,
        None,
        None,
        None,
    )
    .unwrap();
    assert!(req.all_scopes);
    assert_eq!(req.scope, None);
}

#[test]
fn limit_defaults_to_one_hundred() {
    let req = prepare_list_stores(None, None, None);
    assert_eq!(req.limit, 100);
    let req = prepare_list_stores(Some("pre".to_string()), Some(25), Some("cur".to_string()));
    assert_eq!(req.limit, 25);
    assert_eq!(req.prefix.as_deref(), Some("pre"));
    assert_eq!(req.cursor.as_deref(), Some("cur"));
}

#[test]
fn increment_amount_passes_through_unmodified() {
    // No local arithmetic: the amount goes out exactly as written and the
    // remote store reports whatever value results.
    let config = config_with_defaults();
    let req = prepare_increment(
        &config,
        None,
        None,
        "counter".to_string(),
        "-5.5".to_string(),
        None,
        None,
    )
    .unwrap();
    assert_eq!(req.increment_by, "-5.5");
}

#[test]
fn user_ids_keep_order_and_duplicates() {
    let config = config_with_defaults();
    let req = prepare_set(
        &config,
        None,
        None,
        "k".to_string(),
        "{}".to_string(),
        Some("v7".to_string()),
        Some(true),
        Some(vec![3, 1, 3]),
        Some("{\"tag\":1}".to_string()),
    )
    .unwrap();
    assert_eq!(req.user_ids, Some(vec![3, 1, 3]));
    assert_eq!(req.match_version.as_deref(), Some("v7"));
    assert_eq!(req.exclusive_create, Some(true));
    assert_eq!(req.data, "{}");
}

#[test]
fn two_deletes_prepare_the_same_request() {
    // Preparation reads no remote state: a second delete of the same key is
    // the same request, and the remote store answers both without error.
    let config = config_with_defaults();
    let first = prepare_delete(&config, None, None, "user_1".to_string()).unwrap();
    let second = prepare_delete(&config, None, None, "user_1".to_string()).unwrap();
    assert_eq!(first.name, second.name);
    assert_eq!(first.scope, second.scope);
    assert_eq!(first.key, second.key);
}

#[test]
fn sort_order_defaults_to_ascending() {
    let config = config_with_defaults();
    let req = prepare_list_versions(
        &config,
        None,
        None,
        "k".to_string(),
        None,
        None,
        None,
        None,
        None,
    )
    .unwrap();
    assert_eq!(req.sort_order, "Ascending");
    let req = prepare_list_versions(
        &config,
        None,
        None,
        "k".to_string(),
        Some("2020-01-01T00:00:00Z".to_string()),
        Some("2021-01-01T00:00:00Z".to_string()),
        Some(ListEntrySortOrder::Descending),
        Some(5),
        None,
    )
    .unwrap();
    assert_eq!(req.sort_order, "Descending");
    assert_eq!(req.limit, 5);
    assert_eq!(req.start_time.as_deref(), Some("2020-01-01T00:00:00Z"));
    assert_eq!(req.end_time.as_deref(), Some("2021-01-01T00:00:00Z"));
}

#[test]
fn dispatch_resolves_credential_universe_and_request() {
    let config = config_with_defaults();
    let command = DataStoreCommands::Get {
        branch_name: None,
        datastore_name: None,
        scope: None,
        key: "user_1".to_string(),
        api_key: None,
    };
    let dispatch = DataStore { command }
        .prepare(&config, Some("env-key".to_string()))
        .unwrap();
    assert_eq!(dispatch.auth, "env-key");
    assert_eq!(dispatch.universe_id, 123);
    match dispatch.request {
        PreparedRequest::GetEntry(req) => {
            assert_eq!(req.name, "Players");
            assert_eq!(req.scope, "v1");
            assert_eq!(req.key, "user_1");
        }
        other => panic!("wrong request kind: {other:?}"),
    }
}

#[test]
fn explicit_api_key_wins_over_environment() {
    let config = config_with_defaults();
    let command = DataStoreCommands::ListStores {
        branch_name: None,
        prefix: None,
        limit: None,
        cursor: None,
        api_key: Some("flag-key".to_string()),
    };
    let dispatch = command
        .prepare(&config, Some("env-key".to_string()))
        .unwrap();
    assert_eq!(dispatch.auth, "flag-key");
}

#[test]
fn missing_credential_is_found_first() {
    // Credential staging comes before every configuration lookup, so even a
    // command that would also miss its universe reports the credential.
    let config = Config::new("main".to_string(), vec![], vec![], None, None);
    let command = DataStoreCommands::Delete {
        branch_name: None,
        datastore_name: None,
        scope: None,
        key: "k".to_string(),
        api_key: None,
    };
    let err = command.prepare(&config, None).unwrap_err();
    match err {
        CommandError::Credential(c) => {
            assert_eq!(c.var_name, "OPENCLOUD_KEY");
        }
        other => panic!("wrong error kind: {other:?}"),
    }
}

#[test]
fn missing_universe_is_found_before_name_and_scope() {
    let config = Config::new("dev".to_string(), vec![], vec![], None, None);
    let command = DataStoreCommands::Get {
        branch_name: Some("dev".to_string()),
        datastore_name: None,
        scope: None,
        key: "k".to_string(),
        api_key: Some("key".to_string()),
    };
    let err = command.prepare(&config, None).unwrap_err();
    match err {
        CommandError::Config(e) => {
            assert_eq!(e.message(), "No universe id found for branch dev");
        }
        other => panic!("wrong error kind: {other:?}"),
    }
}
