//! Which configuration file is read, and what becomes of it.

use crate::app_config::{runtime_settings, AppConfig, RawConfig};
use crate::config::{ConfigError, Settings, SocketAddress};
use vstd::prelude::*;

verus! {

/// The configuration file where none is named.
pub const DEFAULT_CONFIG_FILE: &'static str = "config.toml";

/// The world directory where none is named.
pub const DEFAULT_WORLD_DIR: &'static str = "world";

/// The command-line arguments.
#[derive(Debug)]
pub struct Cli {
    /// The configuration file.
    pub config: Option<String>,
    /// The listen port, in place of the configured one.
    pub port: Option<u16>,
    /// The bind address, in place of the configured one.
    pub bind: Option<SocketAddress>,
}

/// Where the path of the configuration file comes from.
#[derive(Clone, Copy, Debug, PartialEq, Eq, Structural)]
pub enum PathSource {
    /// The command line.
    CommandLine,
    /// The environment.
    Environment,
    /// The default.
    Default,
}

/// Where the path of the configuration file comes from: the command line, where it names
/// one, else the environment, where it does, else the default.
pub fn path_source(on_command_line: bool, in_environment: bool) -> (r: PathSource)
    ensures
        r == source_of(on_command_line, in_environment),
        r == if on_command_line {
            PathSource::CommandLine
        } else if in_environment {
            PathSource::Environment
        } else {
            PathSource::Default
        },
{
    if on_command_line {
        PathSource::CommandLine
    } else if in_environment {
        PathSource::Environment
    } else {
        PathSource::Default
    }
}

impl Cli {
    /// Resolves which configuration file to use: the one on the command line, else the
    /// one that the environment names, else the default.
    pub fn config_path(&self, environment: Option<&String>) -> (r: String)
        ensures
            r@ == match (self.config, environment) {
                (Some(path), _) => path@,
                (None, Some(path)) => path@,
                (None, None) => DEFAULT_CONFIG_FILE@,
            },
    {
        match &self.config {
            Some(path) => path.clone(),
            None => match environment {
                Some(path) => path.clone(),
                None => DEFAULT_CONFIG_FILE.to_owned(),
            },
        }
    }
}

/// What was found where the configuration file is.
#[derive(Debug)]
pub enum ConfigFile {
    /// Nothing; a template was written there.
    TemplateWritten,
    /// Nothing, and the template could not be written, for a reason.
    TemplateRefused(String),
    /// A file that could not be read, for a reason.
    Unreadable(String),
    /// A document that does not parse, for a reason.
    Malformed(String),
    /// A document.
    Document(RawConfig),
}

/// Why no configuration is had.
#[derive(Debug)]
pub enum LoadError {
    /// The template could not be written, for a reason.
    Writing(String),
    /// The file could not be read, for a reason.
    Reading(String),
    /// The document does not parse, for a reason.
    Parsing(String),
    /// The document is refused.
    Invalid(ConfigError),
}

/// Whether a configuration is what a file gives, before the command line is applied.
pub open spec fn gives(file: ConfigFile, settings: Settings) -> bool {
    match file {
        ConfigFile::TemplateWritten => settings.is_default(),
        ConfigFile::Document(raw) => raw.merges_into(settings) && settings.valid(),
        _ => false,
    }
}

/// Makes a configuration of what was found, applies the command line, and names a world
/// directory where the configuration names none.
///
/// Where there was no file the defaults hold, so a first start never fails for want of
/// one. A document that cannot be read, parsed or accepted is an error.
pub fn load_or_init_config(
    file: ConfigFile,
    port: Option<u16>,
    bind: Option<SocketAddress>,
) -> (r: Result<AppConfig, LoadError>)
    ensures
        match r {
            Ok(config) => exists|loaded: Settings, world_dir: String|
                #![trigger runtime_settings(loaded, bind, port, world_dir)]
                {
                    &&& gives(file, loaded)
                    &&& world_dir@ == DEFAULT_WORLD_DIR@
                    &&& config.model() == runtime_settings(loaded, bind, port, world_dir)
                },
            Err(LoadError::Writing(reason)) => file == ConfigFile::TemplateRefused(reason),
            Err(LoadError::Reading(reason)) => file == ConfigFile::Unreadable(reason),
            Err(LoadError::Parsing(reason)) => file == ConfigFile::Malformed(reason),
            Err(LoadError::Invalid(error)) => file matches ConfigFile::Document(raw) && (
            raw.address_fault() == Some(error) || exists|settings: Settings| #[trigger]
                raw.merges_into(settings) && settings.first_fault() == Some(error)),
        },
        file is TemplateWritten ==> r is Ok,
        file matches ConfigFile::Document(raw) ==> forall|settings: Settings| #[trigger]
            raw.merges_into(settings) ==> r is Ok == settings.valid(),
{
    let config = match file {
        ConfigFile::TemplateWritten => AppConfig::default(),
        ConfigFile::TemplateRefused(reason) => {
            return Err(LoadError::Writing(reason));
        },
        ConfigFile::Unreadable(reason) => {
            return Err(LoadError::Reading(reason));
        },
        ConfigFile::Malformed(reason) => {
            return Err(LoadError::Parsing(reason));
        },
        ConfigFile::Document(raw) => match raw.into_config() {
            Ok(config) => config,
            Err(error) => {
                return Err(LoadError::Invalid(error));
            },
        },
    };
    let ghost loaded = config.model();
    let world_dir = DEFAULT_WORLD_DIR.to_owned();
    let ghost default_dir = world_dir;
    match config.with_runtime_overrides(bind, port, world_dir) {
        Ok(config) => {
            assert(config.model() == runtime_settings(loaded, bind, port, default_dir));
            Ok(config)
        },
        Err(error) => Err(LoadError::Invalid(error)),
    }
}

/// A first start has the defaults, and a document what it says over them, where the limits
/// allow; a file that was not read, or a template that was not written, gives nothing.
pub proof fn files_give_what_they_say(file: ConfigFile, settings: Settings)
    ensures
        gives(file, settings) ==> file is TemplateWritten || file is Document,
        file is TemplateWritten ==> gives(file, settings) == settings.is_default(),
        file matches ConfigFile::Document(raw) ==> gives(file, settings) == (raw.merges_into(
            settings,
        ) && settings.first_fault() is None),
{
    crate::config::faults_are_real(settings);
}

/// The path on the command line counts before the one in the environment, and either before
/// the default; the default counts only where neither is given.
pub open spec fn source_of(on_command_line: bool, in_environment: bool) -> PathSource {
    if on_command_line {
        PathSource::CommandLine
    } else if in_environment {
        PathSource::Environment
    } else {
        PathSource::Default
    }
}

/// The source that is chosen is one that is given, and the command line wherever it is.
pub proof fn sources_are_given(on_command_line: bool, in_environment: bool)
    ensures
        source_of(on_command_line, in_environment) is CommandLine == on_command_line,
        source_of(on_command_line, in_environment) is Environment == (in_environment
            && !on_command_line),
        source_of(on_command_line, in_environment) is Default == (!in_environment
            && !on_command_line),
{
}

} // verus!
