use npack::config::{
    config_search_names, db_connection_var_name, resolve, s3_key_var_name, s3_secret_var_name, Args,
    BuildRequest, ConfigSource, EnvCredentials, NpackConfig,
};
use npack::error::ValidationError;

fn text(s: &str) -> Option<String> {
    Some(s.to_string())
}

fn no_args() -> Args {
    Args {
        source: None,
        config: false,
        config_file: None,
        entry: None,
        platform: None,
        node_version: None,
        output: None,
        run_postinstall: false,
        db_connection: None,
        s3_key: None,
        s3_secret: None,
    }
}

fn no_env() -> EnvCredentials {
    EnvCredentials { db_connection: None, s3_key: None, s3_secret: None }
}

fn pair(name: &str, value: &str) -> (String, String) {
    (name.to_string(), value.to_string())
}

#[test]
fn test_default_config() {
    let config = NpackConfig::default();
    assert_eq!(config.get_platform(), "host");
    assert_eq!(config.get_node_version(), "24.12.0");
    assert_eq!(config.get_output(), "./dist");
    assert_eq!(config.get_entry(), None);
    assert!(!config.should_run_postinstall());
    assert!(config.get_assets().is_empty());
    assert!(config.get_scripts().is_empty());
    assert!(config.get_env_vars().is_empty());
}

#[test]
fn test_env_vars_merge() {
    let mut config = NpackConfig::default();
    config.db_connection = text("postgres://localhost");
    config.s3_key = text("key123");

    let env = config.get_env_vars();
    assert_eq!(
        env,
        vec![
            pair("DB_CONNECTION_STRING", "postgres://localhost"),
            pair("PACKAGES_STORAGE_S3_KEY", "key123"),
        ]
    );
}

#[test]
fn env_vars_lay_credentials_over_the_explicit_map() {
    let mut config = NpackConfig::default();
    config.env = Some(vec![
        pair("A", "1"),
        pair("PACKAGES_STORAGE_S3_SECRET", "from-map"),
        pair("B", "2"),
    ]);
    config.s3_secret = text("from-field");
    config.db_connection = text("db");
    assert_eq!(
        config.get_env_vars(),
        vec![
            pair("A", "1"),
            pair("PACKAGES_STORAGE_S3_SECRET", "from-field"),
            pair("B", "2"),
            pair("DB_CONNECTION_STRING", "db"),
        ]
    );
}

#[test]
fn env_vars_keep_each_name_once_with_the_last_value() {
    let mut config = NpackConfig::default();
    config.env = Some(vec![pair("A", "1"), pair("B", "2"), pair("A", "3")]);
    assert_eq!(config.get_env_vars(), vec![pair("A", "3"), pair("B", "2")]);
}

#[test]
fn variable_names_are_the_documented_ones() {
    assert_eq!(db_connection_var_name(), "DB_CONNECTION_STRING");
    assert_eq!(s3_key_var_name(), "PACKAGES_STORAGE_S3_KEY");
    assert_eq!(s3_secret_var_name(), "PACKAGES_STORAGE_S3_SECRET");
}

#[test]
fn get_source_needs_a_source() {
    let mut config = NpackConfig::default();
    assert_eq!(
        config.get_source(),
        Err("Source is required (specify in config or as argument)")
    );
    config.source = text("./app");
    assert_eq!(config.get_source(), Ok("./app".to_string()));
}

#[test]
fn cli_platform_overrides_config_platform() {
    let mut config = NpackConfig::default();
    config.platform = text("linux");
    let mut args = no_args();
    args.platform = text("windows");
    config.merge_with_args(&args);
    assert_eq!(config.get_platform(), "windows");
}

#[test]
fn merge_with_args_overrides_every_given_field() {
    let mut config = NpackConfig::default();
    config.source = text("file-source");
    config.entry = text("file-entry");
    config.node_version = text("18");
    config.output = text("file-out");
    config.db_connection = text("file-db");
    config.s3_key = text("file-key");
    config.s3_secret = text("file-secret");
    let args = Args {
        source: text("cli-source"),
        config: false,
        config_file: None,
        entry: text("cli-entry"),
        platform: text("macos"),
        node_version: text("20"),
        output: text("cli-out"),
        run_postinstall: true,
        db_connection: text("cli-db"),
        s3_key: text("cli-key"),
        s3_secret: text("cli-secret"),
    };
    config.merge_with_args(&args);
    assert_eq!(config.source, text("cli-source"));
    assert_eq!(config.entry, text("cli-entry"));
    assert_eq!(config.platform, text("macos"));
    assert_eq!(config.node_version, text("20"));
    assert_eq!(config.output, text("cli-out"));
    assert_eq!(config.run_postinstall, Some(true));
    assert_eq!(config.db_connection, text("cli-db"));
    assert_eq!(config.s3_key, text("cli-key"));
    assert_eq!(config.s3_secret, text("cli-secret"));
}

#[test]
fn merge_with_args_leaves_what_the_cli_omits() {
    let mut config = NpackConfig::default();
    config.source = text("file-source");
    config.platform = text("linux");
    config.run_postinstall = Some(true);
    config.env = Some(vec![pair("A", "1")]);
    config.assets = Some(vec!["assets/**".to_string()]);
    config.scripts = Some(vec!["migrations/*.js".to_string()]);
    let before = config.clone();
    config.merge_with_args(&no_args());
    assert_eq!(config, before);
    assert!(config.should_run_postinstall());
    assert_eq!(config.get_assets(), vec!["assets/**".to_string()]);
    assert_eq!(config.get_scripts(), vec!["migrations/*.js".to_string()]);
}

#[test]
fn an_absent_postinstall_flag_never_clears_the_config() {
    let mut config = NpackConfig::default();
    config.run_postinstall = Some(true);
    let mut args = no_args();
    args.run_postinstall = false;
    config.merge_with_args(&args);
    assert_eq!(config.run_postinstall, Some(true));

    let mut off = NpackConfig::default();
    off.run_postinstall = Some(false);
    args.run_postinstall = true;
    off.merge_with_args(&args);
    assert_eq!(off.run_postinstall, Some(true));
}

#[test]
fn merge_with_env_fills_only_absent_credentials() {
    let env = EnvCredentials {
        db_connection: text("env-db"),
        s3_key: text("env-key"),
        s3_secret: text("env-secret"),
    };
    let mut config = NpackConfig::default();
    config.s3_key = text("file-key");
    config.source = text("src");
    config.merge_with_env(&env);
    assert_eq!(config.db_connection, text("env-db"));
    assert_eq!(config.s3_key, text("file-key"));
    assert_eq!(config.s3_secret, text("env-secret"));
    assert_eq!(config.source, text("src"));
    assert_eq!(config.platform, None);
    assert_eq!(config.env, None);
}

#[test]
fn merge_with_env_without_variables_changes_nothing() {
    let mut config = NpackConfig::default();
    config.db_connection = text("file-db");
    let before = config.clone();
    config.merge_with_env(&no_env());
    assert_eq!(config, before);
}

#[test]
fn the_file_key_stands_against_the_environment_when_no_flag_is_given() {
    let mut config = NpackConfig::default();
    config.s3_key = text("C");
    let env = EnvCredentials { db_connection: None, s3_key: text("E"), s3_secret: None };
    config.merge_with_env(&env);
    config.merge_with_args(&no_args());
    assert_eq!(config.s3_key, text("C"));

    let mut other = NpackConfig::default();
    other.s3_key = text("C");
    other.merge_with_args(&no_args());
    other.merge_with_env(&env);
    assert_eq!(other.s3_key, text("C"));
}

#[test]
fn resolve_takes_the_file_credentials_before_the_environment() {
    let mut args = no_args();
    args.source = text("./app");
    let mut config = NpackConfig::default();
    config.db_connection = text("file-db");
    config.s3_key = text("file-key");
    config.s3_secret = text("file-secret");
    let env = EnvCredentials {
        db_connection: text("env-db"),
        s3_key: text("env-key"),
        s3_secret: text("env-secret"),
    };
    let request = resolve(args, config, &env).unwrap();
    assert_eq!(
        request.env_vars,
        vec![
            pair("DB_CONNECTION_STRING", "file-db"),
            pair("PACKAGES_STORAGE_S3_KEY", "file-key"),
            pair("PACKAGES_STORAGE_S3_SECRET", "file-secret"),
        ]
    );
}

#[test]
fn a_flag_wins_over_the_file_and_the_environment_for_every_credential() {
    let mut args = no_args();
    args.source = text("./app");
    args.db_connection = text("cli-db");
    args.s3_secret = text("cli-secret");
    let mut config = NpackConfig::default();
    config.db_connection = text("file-db");
    let env = EnvCredentials {
        db_connection: text("env-db"),
        s3_key: text("env-key"),
        s3_secret: text("env-secret"),
    };
    let request = resolve(args, config, &env).unwrap();
    assert_eq!(
        request.env_vars,
        vec![
            pair("DB_CONNECTION_STRING", "cli-db"),
            pair("PACKAGES_STORAGE_S3_KEY", "env-key"),
            pair("PACKAGES_STORAGE_S3_SECRET", "cli-secret"),
        ]
    );
}

#[test]
fn env_populates_s3_key_when_neither_cli_nor_config_set_it() {
    let mut args = no_args();
    args.source = text("./app");
    let env = EnvCredentials { db_connection: None, s3_key: text("env-key"), s3_secret: None };
    let request = resolve(args, NpackConfig::default(), &env).unwrap();
    assert_eq!(request.env_vars, vec![pair("PACKAGES_STORAGE_S3_KEY", "env-key")]);
}

#[test]
fn cli_s3_key_wins_over_the_environment_and_the_config() {
    let mut args = no_args();
    args.source = text("./app");
    args.s3_key = text("cli-key");
    let mut config = NpackConfig::default();
    config.s3_key = text("file-key");
    let env = EnvCredentials { db_connection: None, s3_key: text("env-key"), s3_secret: None };
    let request = resolve(args, config, &env).unwrap();
    assert_eq!(request.env_vars, vec![pair("PACKAGES_STORAGE_S3_KEY", "cli-key")]);
}

#[test]
fn config_s3_key_stands_when_cli_and_environment_are_silent() {
    let mut args = no_args();
    args.source = text("./app");
    let mut config = NpackConfig::default();
    config.s3_key = text("file-key");
    let request = resolve(args, config, &no_env()).unwrap();
    assert_eq!(request.env_vars, vec![pair("PACKAGES_STORAGE_S3_KEY", "file-key")]);
}

#[test]
fn validate_refuses_a_missing_source() {
    let config = NpackConfig::default();
    assert_eq!(config.validate(), Err(ValidationError::MissingSource));
    let mut empty = NpackConfig::default();
    empty.source = text("");
    assert_eq!(empty.validate(), Err(ValidationError::MissingSource));
}

#[test]
fn validate_refuses_an_unknown_platform() {
    let mut config = NpackConfig::default();
    config.source = text("./app");
    config.platform = text("solaris");
    assert_eq!(
        config.validate(),
        Err(ValidationError::InvalidPlatform("solaris".to_string()))
    );
}

#[test]
fn validate_reports_the_missing_source_first() {
    let mut config = NpackConfig::default();
    config.platform = text("solaris");
    assert_eq!(config.validate(), Err(ValidationError::MissingSource));
}

#[test]
fn validate_accepts_every_enumerated_platform() {
    for name in ["host", "all", "linux", "macos", "windows"] {
        let mut config = NpackConfig::default();
        config.source = text("./app");
        config.platform = text(name);
        assert_eq!(config.validate(), Ok(()));
    }
    let mut unset = NpackConfig::default();
    unset.source = text("./app");
    assert_eq!(unset.validate(), Ok(()));
}

#[test]
fn validate_does_not_accept_the_darwin_alias() {
    let mut config = NpackConfig::default();
    config.source = text("./app");
    config.platform = text("darwin");
    assert_eq!(
        config.validate(),
        Err(ValidationError::InvalidPlatform("darwin".to_string()))
    );
}

#[test]
fn resolve_applies_the_defaults() {
    let mut args = no_args();
    args.source = text("./app");
    let request = resolve(args, NpackConfig::default(), &no_env()).unwrap();
    assert_eq!(
        request,
        BuildRequest {
            source: "./app".to_string(),
            entry: None,
            platform: "host".to_string(),
            runtime_version: "24.12.0".to_string(),
            output_dir: "./dist".to_string(),
            run_postinstall: false,
            env_vars: vec![],
            assets: vec![],
            scripts: vec![],
        }
    );
}

#[test]
fn resolve_merges_the_three_inputs() {
    let mut args = no_args();
    args.platform = text("windows");
    args.run_postinstall = true;
    let config = NpackConfig {
        source: text("https://example.com/repo.git"),
        entry: text("src/main.js"),
        platform: text("linux"),
        node_version: text("20"),
        output: text("out"),
        run_postinstall: None,
        env: Some(vec![pair("MODE", "prod")]),
        assets: Some(vec!["public/**".to_string()]),
        scripts: None,
        db_connection: None,
        s3_key: None,
        s3_secret: None,
    };
    let env = EnvCredentials { db_connection: text("db"), s3_key: None, s3_secret: text("s") };
    let request = resolve(args, config, &env).unwrap();
    assert_eq!(request.source, "https://example.com/repo.git");
    assert_eq!(request.entry, text("src/main.js"));
    assert_eq!(request.platform, "windows");
    assert_eq!(request.runtime_version, "20");
    assert_eq!(request.output_dir, "out");
    assert!(request.run_postinstall);
    assert_eq!(
        request.env_vars,
        vec![
            pair("MODE", "prod"),
            pair("DB_CONNECTION_STRING", "db"),
            pair("PACKAGES_STORAGE_S3_SECRET", "s"),
        ]
    );
    assert_eq!(request.assets, vec!["public/**".to_string()]);
    assert!(request.scripts.is_empty());
}

#[test]
fn resolve_validates_after_the_merge() {
    let result = resolve(no_args(), NpackConfig::default(), &no_env());
    assert_eq!(result, Err(ValidationError::MissingSource));

    let mut args = no_args();
    args.source = text("./app");
    args.platform = text("solaris");
    let mut config = NpackConfig::default();
    config.platform = text("linux");
    assert_eq!(
        resolve(args, config, &no_env()),
        Err(ValidationError::InvalidPlatform("solaris".to_string()))
    );
}

#[test]
fn config_search_names_are_in_search_order() {
    assert_eq!(
        config_search_names(),
        vec!["npack.config.json".to_string(), ".npackrc".to_string(), "npack.json".to_string()]
    );
}

#[test]
fn find_in_cwd_takes_the_first_configuration_found() {
    let mut second = NpackConfig::default();
    second.source = text("second");
    let mut third = NpackConfig::default();
    third.source = text("third");
    let found = NpackConfig::find_in_cwd(vec![None, Some(second.clone()), Some(third)]);
    assert_eq!(found, Some(second));
    assert_eq!(NpackConfig::find_in_cwd(vec![None, None, None]), None);
    assert_eq!(NpackConfig::find_in_cwd(vec![]), None);
}

#[test]
fn the_config_switch_wins_over_a_named_file() {
    let mut args = no_args();
    assert_eq!(args.config_source(), ConfigSource::Defaults);
    args.config_file = text("my.json");
    assert_eq!(args.config_source(), ConfigSource::File("my.json".to_string()));
    args.config = true;
    assert_eq!(args.config_source(), ConfigSource::WorkingDir);
    args.config_file = None;
    assert_eq!(args.config_source(), ConfigSource::WorkingDir);
}
