//! Resolution: the command line, what was found of the configuration file,
//! and the built-in defaults, made into the one configuration that the
//! service runs with.

use vstd::prelude::*;
use vstd::string::StringExecFns;
use crate::config::{Config, ConfigView, LineArgs};
use crate::precedence::resolved;

verus! {

/// What was found at the place of the configuration file.
#[derive(Debug, PartialEq, Eq)]
pub enum FileSource {
    /// No file could be opened there. The file is optional, so this is no
    /// failure: the file then supplies no setting.
    Missing,
    /// A file was opened and read; it supplies these settings.
    Parsed(Config),
    /// A file was opened, but it could not be read to its end or its content
    /// is no configuration. Holds what the parser reported.
    Rejected(String),
}

impl FileSource {
    /// The settings that the file supplies, where it supplies any: none of
    /// them present for a missing file, those read for a parsed one. A
    /// rejected file supplies nothing to resolve with.
    pub open spec fn settings(self) -> Option<ConfigView> {
        match self {
            FileSource::Missing => Some(ConfigView::absent()),
            FileSource::Parsed(config) => Some(config@),
            FileSource::Rejected(_) => None,
        }
    }
}

/// Why no configuration could be resolved.
#[derive(Debug, PartialEq, Eq)]
pub enum ConfigError {
    /// The configuration file is there, but was rejected for what it holds.
    /// Carries what the parser reported.
    InvalidFile(String),
}

impl ConfigError {
    /// The text of [`ConfigError::message`].
    pub open spec fn message_text(self) -> Seq<char> {
        match self {
            ConfigError::InvalidFile(reason) => "Error in configuration file:\n"@ + reason@,
        }
    }

    /// The diagnostic to end the start-up with: it names the configuration
    /// file as the source at fault and repeats what the parser reported.
    pub fn message(&self) -> (text: String)
        ensures
            text@ == self.message_text(),
    {
        match self {
            ConfigError::InvalidFile(reason) => {
                "Error in configuration file:\n".to_owned().concat(reason.as_str())
            },
        }
    }
}

impl Config {
    /// Resolves the configuration of the service from the command line and
    /// from what was found of the configuration file.
    ///
    /// A rejected file fails the resolution with its report, and nothing is
    /// resolved. Otherwise the resolution succeeds: each setting is the
    /// command line's where the command line holds it, else the file's where
    /// the file holds it, else the built-in default. With no file, that is
    /// the command line over the defaults.
    pub fn new(args: LineArgs, file: FileSource) -> (outcome: Result<Config, ConfigError>)
        ensures
            outcome is Err <==> file is Rejected,
            file matches FileSource::Rejected(reason) ==> outcome == Err::<Config, ConfigError>(
                ConfigError::InvalidFile(reason),
            ),
            file.settings() matches Some(settings) ==> (outcome matches Ok(config) && config@
                == resolved(args.config@, settings)),
            file is Missing ==> (outcome matches Ok(config) && config@ == args.config@.merged(
                ConfigView::defaults(),
            )),
    {
        let mut config = args.config;
        match file {
            FileSource::Missing => {},
            FileSource::Parsed(overrides) => {
                config.merge(overrides);
            },
            FileSource::Rejected(reason) => {
                return Err(ConfigError::InvalidFile(reason));
            },
        }
        config.merge(Config::defaults());
        Ok(config)
    }
}

} // verus!
