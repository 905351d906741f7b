use database_common_lib::database_connection::{
    apply_env_overrides, get_database_name, set_database_name, set_database_name_from_env,
    validate_debug_config, ConfigError, DatabaseConnectionData, DatabaseNameSlot, EnvOverrides,
    EnvVar, FilemakerCredentials, PoolSettings,
};
use database_common_lib::numbers::IntErrorKind;

fn no_env() -> EnvOverrides {
    EnvOverrides {
        host: None,
        user: None,
        password: None,
        port: None,
        hash: None,
        filemaker_user: None,
        filemaker_password: None,
    }
}

fn sample() -> DatabaseConnectionData {
    DatabaseConnectionData {
        host: "db.example".to_string(),
        user: "app".to_string(),
        password: "secret".to_string(),
        filemaker: FilemakerCredentials { username: "fm".to_string(), password: "fmpw".to_string() },
        hash: "h".to_string(),
        port: Some(3307),
    }
}

#[test]
fn default_is_empty() {
    let d = DatabaseConnectionData::default();
    assert_eq!(d.host, "");
    assert_eq!(d.user, "");
    assert_eq!(d.password, "");
    assert_eq!(d.filemaker.username, "");
    assert_eq!(d.filemaker.password, "");
    assert_eq!(d.hash, "");
    assert_eq!(d.port, None);
}

#[test]
fn overrides_replace_only_set_fields() {
    let mut c = sample();
    let mut env = no_env();
    env.host = Some("localhost".to_string());
    env.filemaker_password = Some("new".to_string());
    env.port = Some("3306".to_string());
    assert!(apply_env_overrides(&mut c, &env).is_ok());
    assert_eq!(c.host, "localhost");
    assert_eq!(c.user, "app");
    assert_eq!(c.password, "secret");
    assert_eq!(c.filemaker.username, "fm");
    assert_eq!(c.filemaker.password, "new");
    assert_eq!(c.hash, "h");
    assert_eq!(c.port, Some(3306));
}

#[test]
fn no_overrides_leave_config_unchanged() {
    let mut c = sample();
    assert!(apply_env_overrides(&mut c, &no_env()).is_ok());
    assert_eq!(c.host, "db.example");
    assert_eq!(c.port, Some(3307));
}

#[test]
fn overrides_applied_twice_equal_once() {
    let mut env = no_env();
    env.user = Some("u2".to_string());
    env.port = Some("+99".to_string());
    let mut once = sample();
    apply_env_overrides(&mut once, &env).unwrap();
    let mut twice = sample();
    apply_env_overrides(&mut twice, &env).unwrap();
    apply_env_overrides(&mut twice, &env).unwrap();
    assert_eq!(format!("{:?}", once), format!("{:?}", twice));
    assert_eq!(once.port, Some(99));
}

#[test]
fn invalid_port_is_refused_and_port_kept() {
    let mut c = sample();
    let mut env = no_env();
    env.hash = Some("newhash".to_string());
    env.port = Some("80a".to_string());
    let err = apply_env_overrides(&mut c, &env).unwrap_err();
    match &err {
        ConfigError::InvalidPort { value, kind } => {
            assert_eq!(value, "80a");
            assert_eq!(*kind, IntErrorKind::InvalidDigit);
        }
        other => panic!("unexpected {:?}", other),
    }
    assert_eq!(c.port, Some(3307));
    assert_eq!(c.hash, "newhash");
    let std_err = "80a".parse::<u16>().unwrap_err();
    assert_eq!(err.message(), format!("DB_PORT must be a valid u16 (got {:?}): {}", "80a", std_err));
}

#[test]
fn port_messages_match_std_for_each_kind() {
    for text in ["", "70000", "-1", "a\"b\n"] {
        let mut c = sample();
        let mut env = no_env();
        env.port = Some(text.to_string());
        let err = apply_env_overrides(&mut c, &env).unwrap_err();
        let std_err = text.parse::<u16>().unwrap_err();
        assert_eq!(err.message(), format!("DB_PORT must be a valid u16 (got {:?}): {}", text, std_err));
    }
}

#[test]
fn validation_names_missing_variables_in_order() {
    let mut c = DatabaseConnectionData::default();
    c.user = "someone".to_string();
    let err = validate_debug_config(&c).unwrap_err();
    match &err {
        ConfigError::MissingVariables(vars) => assert_eq!(vars, &vec![EnvVar::Host, EnvVar::Password]),
        other => panic!("unexpected {:?}", other),
    }
    assert_eq!(
        err.message(),
        "Missing required database env var(s) in debug build: DB_HOST, DB_PASSWORD. Set them before running (e.g. DB_HOST, DB_USER, DB_PASSWORD)."
    );
    let all = validate_debug_config(&DatabaseConnectionData::default()).unwrap_err();
    assert_eq!(
        all.message(),
        "Missing required database env var(s) in debug build: DB_HOST, DB_USER, DB_PASSWORD. Set them before running (e.g. DB_HOST, DB_USER, DB_PASSWORD)."
    );
    assert!(validate_debug_config(&sample()).is_ok());
}

#[test]
fn resolve_in_debug_requires_credentials() {
    let err = DatabaseConnectionData::resolve(DatabaseConnectionData::default(), &no_env(), true).unwrap_err();
    assert!(matches!(err, ConfigError::MissingVariables(_)));
    let mut env = no_env();
    env.host = Some("h".to_string());
    env.user = Some("u".to_string());
    env.password = Some("p".to_string());
    let ok = DatabaseConnectionData::resolve(DatabaseConnectionData::default(), &env, true).unwrap();
    assert_eq!((ok.host.as_str(), ok.user.as_str(), ok.password.as_str()), ("h", "u", "p"));
    assert_eq!(ok.port, None);
}

#[test]
fn resolve_in_release_skips_validation() {
    let c = DatabaseConnectionData::resolve(DatabaseConnectionData::default(), &no_env(), false).unwrap();
    assert_eq!(c.host, "");
    let mut env = no_env();
    env.port = Some("".to_string());
    let err = DatabaseConnectionData::resolve(sample(), &env, false).unwrap_err();
    assert!(matches!(err, ConfigError::InvalidPort { kind: IntErrorKind::Empty, .. }));
}

#[test]
fn resolve_reports_port_before_missing_credentials() {
    let mut env = no_env();
    env.port = Some("x".to_string());
    let err = DatabaseConnectionData::resolve(DatabaseConnectionData::default(), &env, true).unwrap_err();
    assert!(matches!(err, ConfigError::InvalidPort { .. }));
}

#[test]
fn database_name_is_write_once() {
    let mut slot = DatabaseNameSlot::new();
    let before = get_database_name(&slot).unwrap_err();
    assert_eq!(before.message(), "Database name has not been set; call set_database_name first");
    assert!(set_database_name(&mut slot, "inventory").is_ok());
    assert_eq!(get_database_name(&slot).unwrap(), "inventory");
    let again = set_database_name(&mut slot, "other").unwrap_err();
    assert_eq!(again.message(), "Database name has already been set");
    assert_eq!(get_database_name(&slot).unwrap(), "inventory");
}

#[test]
fn database_name_from_env() {
    let mut slot = DatabaseNameSlot::new();
    let err = set_database_name_from_env(&mut slot, None).unwrap_err();
    assert_eq!(err.message(), "DB_NAME is not set");
    assert!(get_database_name(&slot).is_err());
    assert!(set_database_name_from_env(&mut slot, Some("sales".to_string())).is_ok());
    assert_eq!(get_database_name(&slot).unwrap(), "sales");
    assert!(matches!(
        set_database_name_from_env(&mut slot, Some("x".to_string())),
        Err(ConfigError::DatabaseNameAlreadySet)
    ));
}

#[test]
fn pool_settings_need_the_database_name() {
    let mut slot = DatabaseNameSlot::new();
    assert!(matches!(PoolSettings::from_config(&sample(), &slot), Err(ConfigError::DatabaseNameNotSet)));
    set_database_name(&mut slot, "inventory").unwrap();
    let p = PoolSettings::from_config(&sample(), &slot).unwrap();
    assert_eq!(p.host, "db.example");
    assert_eq!(p.username, "app");
    assert_eq!(p.password, "secret");
    assert_eq!(p.database, "inventory");
    assert_eq!(p.port, Some(3307));
}

#[test]
fn env_var_names() {
    assert_eq!(EnvVar::Host.name(), "DB_HOST");
    assert_eq!(EnvVar::FilemakerPassword.name(), "DB_FILEMAKER_PASSWORD");
    assert_eq!(EnvVar::DbName.name(), "DB_NAME");
}

#[test]
fn only_the_first_of_many_sets_succeeds() {
    let mut slot = DatabaseNameSlot::new();
    let names = ["first", "second", "third", "first", ""];
    let outcomes: Vec<bool> = names.iter().map(|n| set_database_name(&mut slot, n).is_ok()).collect();
    assert_eq!(outcomes, vec![true, false, false, false, false]);
    assert_eq!(get_database_name(&slot).unwrap(), "first");
}
