use std::path::PathBuf;

use capsule_manager::config::{
    Config, LineArgs, LogConfig, StorageConfig, TlsConfig, DEFAULT_CONFIG_PATH,
};
use capsule_manager::resolve::{ConfigError, FileSource};

fn some(s: &str) -> Option<String> {
    Some(s.to_string())
}

fn command_line(config: Config) -> LineArgs {
    LineArgs { config_path: PathBuf::from(DEFAULT_CONFIG_PATH), config }
}

fn default_literal() -> Config {
    Config {
        port: Some(8888),
        log_config: LogConfig {
            log_dir: some("log"),
            log_level: some("info"),
            enable_console_logger: Some(true),
        },
        tls_config: TlsConfig {
            enable_tls: Some(true),
            server_cert_path: some("/host/resources/cert/server.crt"),
            server_private_key_path: some("/host/resources/cert/server.key"),
            client_ca_cert_path: some("/host/resources/client_ca/"),
        },
        storage_config: StorageConfig {
            storage_backend: some("inmemory"),
            db_url: None,
            password: None,
        },
        scheme: some("RSA"),
        enable_inject_cm_key: Some(false),
        cm_private_key_path: some("/host/resources/cert/cm.key"),
        cm_cert_path: some("/host/resources/cert/cm.crt"),
        mode: some("production"),
    }
}

fn partial_command_line() -> Config {
    let mut config = Config::absent();
    config.port = Some(9999);
    config.tls_config.enable_tls = Some(false);
    config.storage_config.db_url = some("mysql://cli");
    config.mode = some("simulation");
    config
}

fn partial_file() -> Config {
    let mut config = Config::absent();
    config.port = Some(7777);
    config.log_config.log_level = some("debug");
    config.tls_config.server_cert_path = some("/etc/file/server.crt");
    config.storage_config.storage_backend = some("mysql");
    config.storage_config.db_url = some("mysql://file");
    config.scheme = some("SM2");
    config
}

#[test]
fn default_config_path() {
    assert_eq!(DEFAULT_CONFIG_PATH, "/host/config.yaml");
}

#[test]
fn defaults_are_the_documented_literal() {
    let defaults = Config::defaults();
    assert_eq!(defaults, default_literal());
    assert_eq!(defaults.port, Some(8888));
    assert_eq!(defaults.scheme.as_deref(), Some("RSA"));
    assert_eq!(defaults.mode.as_deref(), Some("production"));
    assert_eq!(defaults.enable_inject_cm_key, Some(false));
    assert_eq!(defaults.tls_config.enable_tls, Some(true));
    assert_eq!(defaults.log_config.log_dir.as_deref(), Some("log"));
    assert_eq!(defaults.log_config.log_level.as_deref(), Some("info"));
    assert_eq!(defaults.log_config.enable_console_logger, Some(true));
    assert_eq!(defaults.storage_config.storage_backend.as_deref(), Some("inmemory"));
}

#[test]
fn defaults_leave_only_database_url_and_password_absent() {
    let d = Config::defaults();
    assert!(d.port.is_some());
    assert!(d.scheme.is_some());
    assert!(d.enable_inject_cm_key.is_some());
    assert!(d.cm_private_key_path.is_some());
    assert!(d.cm_cert_path.is_some());
    assert!(d.mode.is_some());
    assert!(d.log_config.log_dir.is_some());
    assert!(d.log_config.log_level.is_some());
    assert!(d.log_config.enable_console_logger.is_some());
    assert!(d.tls_config.enable_tls.is_some());
    assert!(d.tls_config.server_cert_path.is_some());
    assert!(d.tls_config.server_private_key_path.is_some());
    assert!(d.tls_config.client_ca_cert_path.is_some());
    assert!(d.storage_config.storage_backend.is_some());
    assert!(d.storage_config.db_url.is_none());
    assert!(d.storage_config.password.is_none());
}

#[test]
fn no_file_and_no_flags_gives_the_defaults() {
    let resolved = Config::new(command_line(Config::absent()), FileSource::Missing);
    assert_eq!(resolved, Ok(default_literal()));
}

#[test]
fn command_line_port_wins() {
    let mut flags = Config::absent();
    flags.port = Some(9999);
    let resolved = Config::new(command_line(flags), FileSource::Missing).unwrap();
    assert_eq!(resolved.port, Some(9999));

    let mut flags = Config::absent();
    flags.port = Some(9999);
    let mut file = Config::absent();
    file.port = Some(7777);
    let resolved = Config::new(command_line(flags), FileSource::Parsed(file)).unwrap();
    assert_eq!(resolved.port, Some(9999));
}

#[test]
fn file_log_level_is_used_when_the_command_line_has_none() {
    let mut file = Config::absent();
    file.log_config.log_level = some("debug");
    let resolved =
        Config::new(command_line(Config::absent()), FileSource::Parsed(file)).unwrap();
    assert_eq!(resolved.log_config.log_level.as_deref(), Some("debug"));
    assert_eq!(resolved.log_config.log_dir.as_deref(), Some("log"));
    assert_eq!(resolved.log_config.enable_console_logger, Some(true));
}

#[test]
fn rejected_file_resolves_nothing() {
    let outcome = Config::new(
        command_line(partial_command_line()),
        FileSource::Rejected("did not find expected node content".to_string()),
    );
    assert_eq!(
        outcome,
        Err(ConfigError::InvalidFile("did not find expected node content".to_string()))
    );
}

#[test]
fn rejected_file_reports_what_the_parser_said() {
    let report = serde_yaml::from_str::<serde_yaml::Value>("port: [8888")
        .expect_err("an unclosed sequence is no YAML")
        .to_string();
    assert!(!report.is_empty());
    let outcome = Config::new(command_line(Config::absent()), FileSource::Rejected(report.clone()));
    let error = outcome.unwrap_err();
    assert_eq!(error, ConfigError::InvalidFile(report.clone()));
    assert_eq!(error.message(), format!("Error in configuration file:\n{}", report));
}

#[test]
fn error_message_names_the_configuration_file() {
    let error = ConfigError::InvalidFile("port: invalid type".to_string());
    assert_eq!(error.message(), "Error in configuration file:\nport: invalid type");
    let empty = ConfigError::InvalidFile(String::new());
    assert_eq!(empty.message(), "Error in configuration file:\n");
}

#[test]
fn missing_file_is_the_command_line_over_the_defaults() {
    let resolved = Config::new(command_line(partial_command_line()), FileSource::Missing).unwrap();
    let mut expected = partial_command_line();
    expected.merge(Config::defaults());
    assert_eq!(resolved, expected);
    assert_eq!(resolved.port, Some(9999));
    assert_eq!(resolved.tls_config.enable_tls, Some(false));
    assert_eq!(resolved.storage_config.db_url.as_deref(), Some("mysql://cli"));
    assert_eq!(resolved.mode.as_deref(), Some("simulation"));
    assert_eq!(resolved.scheme.as_deref(), Some("RSA"));
}

#[test]
fn missing_file_is_a_file_without_settings() {
    let without = Config::new(command_line(partial_command_line()), FileSource::Missing);
    let empty = Config::new(
        command_line(partial_command_line()),
        FileSource::Parsed(Config::absent()),
    );
    assert_eq!(without, empty);
}

#[test]
fn three_sources_resolve_by_priority() {
    let resolved = Config::new(
        command_line(partial_command_line()),
        FileSource::Parsed(partial_file()),
    )
    .unwrap();
    let expected = Config {
        port: Some(9999),
        log_config: LogConfig {
            log_dir: some("log"),
            log_level: some("debug"),
            enable_console_logger: Some(true),
        },
        tls_config: TlsConfig {
            enable_tls: Some(false),
            server_cert_path: some("/etc/file/server.crt"),
            server_private_key_path: some("/host/resources/cert/server.key"),
            client_ca_cert_path: some("/host/resources/client_ca/"),
        },
        storage_config: StorageConfig {
            storage_backend: some("mysql"),
            db_url: some("mysql://cli"),
            password: None,
        },
        scheme: some("SM2"),
        enable_inject_cm_key: Some(false),
        cm_private_key_path: some("/host/resources/cert/cm.key"),
        cm_cert_path: some("/host/resources/cert/cm.crt"),
        mode: some("simulation"),
    };
    assert_eq!(resolved, expected);
}

#[test]
fn command_line_settings_survive_resolution() {
    let flags = partial_command_line();
    let resolved = Config::new(
        command_line(partial_command_line()),
        FileSource::Parsed(partial_file()),
    )
    .unwrap();
    assert_eq!(resolved.port, flags.port);
    assert_eq!(resolved.tls_config.enable_tls, flags.tls_config.enable_tls);
    assert_eq!(resolved.storage_config.db_url, flags.storage_config.db_url);
    assert_eq!(resolved.mode, flags.mode);
}

#[test]
fn file_settings_fill_what_the_command_line_left_out() {
    let file = partial_file();
    let resolved = Config::new(
        command_line(partial_command_line()),
        FileSource::Parsed(partial_file()),
    )
    .unwrap();
    assert_eq!(resolved.log_config.log_level, file.log_config.log_level);
    assert_eq!(resolved.tls_config.server_cert_path, file.tls_config.server_cert_path);
    assert_eq!(resolved.storage_config.storage_backend, file.storage_config.storage_backend);
    assert_eq!(resolved.scheme, file.scheme);
}

#[test]
fn defaults_fill_what_both_sources_left_out() {
    let defaults = Config::defaults();
    let resolved = Config::new(
        command_line(partial_command_line()),
        FileSource::Parsed(partial_file()),
    )
    .unwrap();
    assert_eq!(resolved.log_config.log_dir, defaults.log_config.log_dir);
    assert_eq!(resolved.log_config.enable_console_logger, Some(true));
    assert_eq!(
        resolved.tls_config.server_private_key_path,
        defaults.tls_config.server_private_key_path
    );
    assert_eq!(resolved.tls_config.client_ca_cert_path, defaults.tls_config.client_ca_cert_path);
    assert_eq!(resolved.enable_inject_cm_key, defaults.enable_inject_cm_key);
    assert_eq!(resolved.cm_private_key_path, defaults.cm_private_key_path);
    assert_eq!(resolved.cm_cert_path, defaults.cm_cert_path);
    assert_eq!(resolved.storage_config.password, None);
}

#[test]
fn database_settings_stay_absent_unless_supplied() {
    let resolved = Config::new(command_line(Config::absent()), FileSource::Missing).unwrap();
    assert_eq!(resolved.storage_config.db_url, None);
    assert_eq!(resolved.storage_config.password, None);

    let mut file = Config::absent();
    file.storage_config.password = some("from-file");
    let resolved = Config::new(command_line(Config::absent()), FileSource::Parsed(file)).unwrap();
    assert_eq!(resolved.storage_config.db_url, None);
    assert_eq!(resolved.storage_config.password.as_deref(), Some("from-file"));
}

#[test]
fn empty_command_line_string_wins_over_file_and_default() {
    let mut flags = Config::absent();
    flags.scheme = some("");
    let mut file = Config::absent();
    file.scheme = some("SM2");
    let resolved = Config::new(command_line(flags), FileSource::Parsed(file)).unwrap();
    assert_eq!(resolved.scheme.as_deref(), Some(""));
}

#[test]
fn config_path_plays_no_part_in_resolution() {
    let here = LineArgs { config_path: PathBuf::from("/etc/a.yaml"), config: partial_command_line() };
    let there = LineArgs { config_path: PathBuf::from("b.yaml"), config: partial_command_line() };
    assert_eq!(
        Config::new(here, FileSource::Parsed(partial_file())),
        Config::new(there, FileSource::Parsed(partial_file()))
    );
}
