//! The configuration shape: top-level settings and three nested groups, every
//! setting optional, with the merge operator that layers one instance over
//! another.

use vstd::prelude::*;
use crate::leaf::{first_present, merge_leaf, text};

verus! {

/// Logging settings.
#[derive(Debug, PartialEq, Eq)]
pub struct LogConfig {
    /// Directory that log files are written to.
    pub log_dir: Option<String>,
    /// Log level.
    pub log_level: Option<String>,
    /// Whether log lines also go to the console.
    pub enable_console_logger: Option<bool>,
}

/// What a [`LogConfig`] holds.
pub struct LogConfigView {
    pub log_dir: Option<Seq<char>>,
    pub log_level: Option<Seq<char>>,
    pub enable_console_logger: Option<bool>,
}

impl View for LogConfig {
    type V = LogConfigView;

    open spec fn view(&self) -> LogConfigView {
        LogConfigView {
            log_dir: text(self.log_dir),
            log_level: text(self.log_level),
            enable_console_logger: self.enable_console_logger,
        }
    }
}

impl LogConfigView {
    /// The group with no setting present.
    pub open spec fn absent() -> LogConfigView {
        LogConfigView { log_dir: None, log_level: None, enable_console_logger: None }
    }

    /// This group layered over `secondary`, setting by setting.
    pub open spec fn merged(self, secondary: LogConfigView) -> LogConfigView {
        LogConfigView {
            log_dir: first_present(self.log_dir, secondary.log_dir),
            log_level: first_present(self.log_level, secondary.log_level),
            enable_console_logger: first_present(
                self.enable_console_logger,
                secondary.enable_console_logger,
            ),
        }
    }
}

impl LogConfig {
    /// A group with no setting present.
    pub fn absent() -> (group: LogConfig)
        ensures
            group@ == LogConfigView::absent(),
    {
        LogConfig { log_dir: None, log_level: None, enable_console_logger: None }
    }

    /// Fills every setting that is absent here from `other`; settings that are
    /// present keep their value.
    pub fn merge(&mut self, other: LogConfig)
        ensures
            final(self)@ == old(self)@.merged(other@),
    {
        merge_leaf(&mut self.log_dir, other.log_dir);
        merge_leaf(&mut self.log_level, other.log_level);
        merge_leaf(&mut self.enable_console_logger, other.enable_console_logger);
    }
}

/// Transport-security settings.
#[derive(Debug, PartialEq, Eq)]
pub struct TlsConfig {
    /// Whether the service speaks TLS.
    pub enable_tls: Option<bool>,
    /// Path of the server certificate.
    pub server_cert_path: Option<String>,
    /// Path of the server private key.
    pub server_private_key_path: Option<String>,
    /// Path of the client CA certificates.
    pub client_ca_cert_path: Option<String>,
}

/// What a [`TlsConfig`] holds.
pub struct TlsConfigView {
    pub enable_tls: Option<bool>,
    pub server_cert_path: Option<Seq<char>>,
    pub server_private_key_path: Option<Seq<char>>,
    pub client_ca_cert_path: Option<Seq<char>>,
}

impl View for TlsConfig {
    type V = TlsConfigView;

    open spec fn view(&self) -> TlsConfigView {
        TlsConfigView {
            enable_tls: self.enable_tls,
            server_cert_path: text(self.server_cert_path),
            server_private_key_path: text(self.server_private_key_path),
            client_ca_cert_path: text(self.client_ca_cert_path),
        }
    }
}

impl TlsConfigView {
    /// The group with no setting present.
    pub open spec fn absent() -> TlsConfigView {
        TlsConfigView {
            enable_tls: None,
            server_cert_path: None,
            server_private_key_path: None,
            client_ca_cert_path: None,
        }
    }

    /// This group layered over `secondary`, setting by setting.
    pub open spec fn merged(self, secondary: TlsConfigView) -> TlsConfigView {
        TlsConfigView {
            enable_tls: first_present(self.enable_tls, secondary.enable_tls),
            server_cert_path: first_present(self.server_cert_path, secondary.server_cert_path),
            server_private_key_path: first_present(
                self.server_private_key_path,
                secondary.server_private_key_path,
            ),
            client_ca_cert_path: first_present(
                self.client_ca_cert_path,
                secondary.client_ca_cert_path,
            ),
        }
    }
}

impl TlsConfig {
    /// A group with no setting present.
    pub fn absent() -> (group: TlsConfig)
        ensures
            group@ == TlsConfigView::absent(),
    {
        TlsConfig {
            enable_tls: None,
            server_cert_path: None,
            server_private_key_path: None,
            client_ca_cert_path: None,
        }
    }

    /// Fills every setting that is absent here from `other`; settings that are
    /// present keep their value.
    pub fn merge(&mut self, other: TlsConfig)
        ensures
            final(self)@ == old(self)@.merged(other@),
    {
        merge_leaf(&mut self.enable_tls, other.enable_tls);
        merge_leaf(&mut self.server_cert_path, other.server_cert_path);
        merge_leaf(&mut self.server_private_key_path, other.server_private_key_path);
        merge_leaf(&mut self.client_ca_cert_path, other.client_ca_cert_path);
    }
}

/// Storage settings.
#[derive(Debug, PartialEq, Eq)]
pub struct StorageConfig {
    /// Storage backend: `inmemory` or `mysql`.
    pub storage_backend: Option<String>,
    /// Database URL.
    pub db_url: Option<String>,
    /// Database password.
    pub password: Option<String>,
}

/// What a [`StorageConfig`] holds.
pub struct StorageConfigView {
    pub storage_backend: Option<Seq<char>>,
    pub db_url: Option<Seq<char>>,
    pub password: Option<Seq<char>>,
}

impl View for StorageConfig {
    type V = StorageConfigView;

    open spec fn view(&self) -> StorageConfigView {
        StorageConfigView {
            storage_backend: text(self.storage_backend),
            db_url: text(self.db_url),
            password: text(self.password),
        }
    }
}

impl StorageConfigView {
    /// The group with no setting present.
    pub open spec fn absent() -> StorageConfigView {
        StorageConfigView { storage_backend: None, db_url: None, password: None }
    }

    /// This group layered over `secondary`, setting by setting.
    pub open spec fn merged(self, secondary: StorageConfigView) -> StorageConfigView {
        StorageConfigView {
            storage_backend: first_present(self.storage_backend, secondary.storage_backend),
            db_url: first_present(self.db_url, secondary.db_url),
            password: first_present(self.password, secondary.password),
        }
    }
}

impl StorageConfig {
    /// A group with no setting present.
    pub fn absent() -> (group: StorageConfig)
        ensures
            group@ == StorageConfigView::absent(),
    {
        StorageConfig { storage_backend: None, db_url: None, password: None }
    }

    /// Fills every setting that is absent here from `other`; settings that are
    /// present keep their value.
    pub fn merge(&mut self, other: StorageConfig)
        ensures
            final(self)@ == old(self)@.merged(other@),
    {
        merge_leaf(&mut self.storage_backend, other.storage_backend);
        merge_leaf(&mut self.db_url, other.db_url);
        merge_leaf(&mut self.password, other.password);
    }
}

/// The whole configuration of the service.
#[derive(Debug, PartialEq, Eq)]
pub struct Config {
    /// Listening port.
    pub port: Option<u32>,
    /// Logging settings.
    pub log_config: LogConfig,
    /// Transport-security settings.
    pub tls_config: TlsConfig,
    /// Storage settings.
    pub storage_config: StorageConfig,
    /// Key scheme: `SM2` or `RSA`.
    pub scheme: Option<String>,
    /// Whether the capsule manager private key is injected.
    pub enable_inject_cm_key: Option<bool>,
    /// Path of the capsule manager private key.
    pub cm_private_key_path: Option<String>,
    /// Path of the capsule manager certificate.
    pub cm_cert_path: Option<String>,
    /// Operating mode of the capsule manager.
    pub mode: Option<String>,
}

/// What a [`Config`] holds.
pub struct ConfigView {
    pub port: Option<u32>,
    pub log_config: LogConfigView,
    pub tls_config: TlsConfigView,
    pub storage_config: StorageConfigView,
    pub scheme: Option<Seq<char>>,
    pub enable_inject_cm_key: Option<bool>,
    pub cm_private_key_path: Option<Seq<char>>,
    pub cm_cert_path: Option<Seq<char>>,
    pub mode: Option<Seq<char>>,
}

impl View for Config {
    type V = ConfigView;

    open spec fn view(&self) -> ConfigView {
        ConfigView {
            port: self.port,
            log_config: self.log_config@,
            tls_config: self.tls_config@,
            storage_config: self.storage_config@,
            scheme: text(self.scheme),
            enable_inject_cm_key: self.enable_inject_cm_key,
            cm_private_key_path: text(self.cm_private_key_path),
            cm_cert_path: text(self.cm_cert_path),
            mode: text(self.mode),
        }
    }
}

impl ConfigView {
    /// The configuration with no setting present in any group.
    pub open spec fn absent() -> ConfigView {
        ConfigView {
            port: None,
            log_config: LogConfigView::absent(),
            tls_config: TlsConfigView::absent(),
            storage_config: StorageConfigView::absent(),
            scheme: None,
            enable_inject_cm_key: None,
            cm_private_key_path: None,
            cm_cert_path: None,
            mode: None,
        }
    }

    /// This configuration layered over `secondary`: group by group, and
    /// within each group setting by setting.
    pub open spec fn merged(self, secondary: ConfigView) -> ConfigView {
        ConfigView {
            port: first_present(self.port, secondary.port),
            log_config: self.log_config.merged(secondary.log_config),
            tls_config: self.tls_config.merged(secondary.tls_config),
            storage_config: self.storage_config.merged(secondary.storage_config),
            scheme: first_present(self.scheme, secondary.scheme),
            enable_inject_cm_key: first_present(
                self.enable_inject_cm_key,
                secondary.enable_inject_cm_key,
            ),
            cm_private_key_path: first_present(
                self.cm_private_key_path,
                secondary.cm_private_key_path,
            ),
            cm_cert_path: first_present(self.cm_cert_path, secondary.cm_cert_path),
            mode: first_present(self.mode, secondary.mode),
        }
    }

    /// The built-in defaults. Every setting has one but the database URL and
    /// the database password, which the in-memory backend does not need.
    pub open spec fn defaults() -> ConfigView {
        ConfigView {
            port: Some(8888u32),
            log_config: LogConfigView {
                log_dir: Some("log"@),
                log_level: Some("info"@),
                enable_console_logger: Some(true),
            },
            tls_config: TlsConfigView {
                enable_tls: Some(true),
                server_cert_path: Some("/host/resources/cert/server.crt"@),
                server_private_key_path: Some("/host/resources/cert/server.key"@),
                client_ca_cert_path: Some("/host/resources/client_ca/"@),
            },
            storage_config: StorageConfigView {
                storage_backend: Some("inmemory"@),
                db_url: None,
                password: None,
            },
            scheme: Some("RSA"@),
            enable_inject_cm_key: Some(false),
            cm_private_key_path: Some("/host/resources/cert/cm.key"@),
            cm_cert_path: Some("/host/resources/cert/cm.crt"@),
            mode: Some("production"@),
        }
    }
}

impl Config {
    /// A configuration with no setting present: what a source supplies that
    /// has nothing to say.
    pub fn absent() -> (config: Config)
        ensures
            config@ == ConfigView::absent(),
    {
        Config {
            port: None,
            log_config: LogConfig::absent(),
            tls_config: TlsConfig::absent(),
            storage_config: StorageConfig::absent(),
            scheme: None,
            enable_inject_cm_key: None,
            cm_private_key_path: None,
            cm_cert_path: None,
            mode: None,
        }
    }

    /// The built-in defaults.
    pub fn defaults() -> (config: Config)
        ensures
            config@ == ConfigView::defaults(),
    {
        Config {
            port: Some(8888),
            log_config: LogConfig {
                log_dir: Some("log".to_owned()),
                log_level: Some("info".to_owned()),
                enable_console_logger: Some(true),
            },
            tls_config: TlsConfig {
                enable_tls: Some(true),
                server_cert_path: Some("/host/resources/cert/server.crt".to_owned()),
                server_private_key_path: Some("/host/resources/cert/server.key".to_owned()),
                client_ca_cert_path: Some("/host/resources/client_ca/".to_owned()),
            },
            storage_config: StorageConfig {
                storage_backend: Some("inmemory".to_owned()),
                db_url: None,
                password: None,
            },
            scheme: Some("RSA".to_owned()),
            enable_inject_cm_key: Some(false),
            cm_private_key_path: Some("/host/resources/cert/cm.key".to_owned()),
            cm_cert_path: Some("/host/resources/cert/cm.crt".to_owned()),
            mode: Some("production".to_owned()),
        }
    }

    /// Fills every setting that is absent here from `other`, in every group;
    /// settings that are present keep their value, whatever `other` holds.
    pub fn merge(&mut self, other: Config)
        ensures
            final(self)@ == old(self)@.merged(other@),
    {
        merge_leaf(&mut self.port, other.port);
        self.log_config.merge(other.log_config);
        self.tls_config.merge(other.tls_config);
        self.storage_config.merge(other.storage_config);
        merge_leaf(&mut self.scheme, other.scheme);
        merge_leaf(&mut self.enable_inject_cm_key, other.enable_inject_cm_key);
        merge_leaf(&mut self.cm_private_key_path, other.cm_private_key_path);
        merge_leaf(&mut self.cm_cert_path, other.cm_cert_path);
        merge_leaf(&mut self.mode, other.mode);
    }
}

/// Where the configuration file is looked for when the command line names
/// no other place.
pub const DEFAULT_CONFIG_PATH: &'static str = "/host/config.yaml";

/// Declares `std::path::PathBuf` as a type whose values are carried through
/// unread.
#[verifier::external_type_specification]
#[verifier::external_body]
pub struct ExPathBuf(std::path::PathBuf);

/// What the command line supplies: the place of the configuration file and
/// the settings given as flags. A flag that was not passed leaves its setting
/// absent.
#[derive(Debug)]
pub struct LineArgs {
    /// Path of the configuration file.
    pub config_path: std::path::PathBuf,
    /// The settings given on the command line.
    pub config: Config,
}

} // verus!
