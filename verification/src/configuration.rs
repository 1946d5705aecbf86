//! Application settings and the runtime environment that selects which
//! configuration file is read.
//!
//! Configuration is read from `configuration/base.yaml`, then from
//! `configuration/{environment}.yaml`, then from `APP_`-prefixed environment
//! variables; `APP_ENVIRONMENT` names the environment, `local` by default.

use crate::text::{all_ascii, ascii_lowercase, to_lowercase, unicode_lowercase};
use config::ConfigError;
use vstd::prelude::*;
use vstd::string::{to_string_from_display_ensures, StringExecFns};

verus! {

/// `config::ConfigError`, the error of reading or deserializing a
/// configuration; opaque here.
#[verifier::external_type_specification]
#[verifier::external_body]
pub struct ExConfigError(ConfigError);

/// Top-level application settings.
#[derive(Clone, Debug)]
pub struct Settings {
    /// Application-specific settings.
    pub application: ApplicationSettings,
}

/// Application-specific configuration settings.
#[derive(Clone, Debug)]
pub struct ApplicationSettings {
    /// The TCP port the application will listen on.
    pub port: u16,
    /// The host address to bind to.
    pub host: String,
    /// The base URL for the application (used for generating links).
    pub base_url: String,
}

/// The possible runtime environments for the application.
#[derive(Debug, Clone, Copy, PartialEq, Eq, Structural)]
pub enum Environment {
    /// Local development environment.
    Local,
    /// Production environment.
    Production,
}

/// The directory, below the working directory, that holds the configuration files.
pub const CONFIGURATION_DIRECTORY: &'static str = "configuration";

/// The configuration file read first, whatever the environment.
pub const BASE_CONFIGURATION_FILE: &'static str = "base.yaml";

/// The environment variable that names the runtime environment.
pub const ENVIRONMENT_VARIABLE: &'static str = "APP_ENVIRONMENT";

/// The prefix of environment variables that override configuration values.
pub const ENVIRONMENT_PREFIX: &'static str = "APP";

/// The separator between the prefix and the rest of such a variable's name.
pub const ENVIRONMENT_PREFIX_SEPARATOR: &'static str = "_";

/// The separator between nested keys in such a variable's name
/// (`APP_APPLICATION__PORT` sets `application.port`).
pub const ENVIRONMENT_KEY_SEPARATOR: &'static str = "__";

/// The explanation that follows a refused environment name.
pub open spec fn unsupported_environment_suffix() -> Seq<char> {
    " is not a supported environment. Use either `local` or `production`."@
}

/// What parsing an already-lowercased environment name gives.
pub open spec fn parse_lowercase_result(lower: Seq<char>) -> Result<Environment, Seq<char>> {
    if lower == "local"@ {
        Ok(Environment::Local)
    } else if lower == "production"@ {
        Ok(Environment::Production)
    } else {
        Err(lower + unsupported_environment_suffix())
    }
}

/// The lowercase form of an environment name: ASCII lowercase for ASCII
/// text, the standard library's Unicode lowercase otherwise.
pub open spec fn lowercase_name(name: Seq<char>) -> Seq<char> {
    if all_ascii(name) {
        ascii_lowercase(name)
    } else {
        unicode_lowercase(name)
    }
}

/// What parsing an environment name gives: names are compared after
/// lowercasing.
pub open spec fn parse_result(name: Seq<char>) -> Result<Environment, Seq<char>> {
    parse_lowercase_result(lowercase_name(name))
}

/// The view of a parse result: the error text in place of the `String`.
pub open spec fn result_view(r: Result<Environment, String>) -> Result<Environment, Seq<char>> {
    match r {
        Ok(e) => Ok(e),
        Err(s) => Err(s@),
    }
}

impl Environment {
    /// The environment's name, as used in configuration file names.
    pub open spec fn name(self) -> Seq<char> {
        match self {
            Environment::Local => "local"@,
            Environment::Production => "production"@,
        }
    }

    /// Returns the environment as a string for use in configuration filenames.
    pub fn as_str(&self) -> (s: &'static str)
        ensures
            s@ == self.name(),
    {
        match self {
            Environment::Local => "local",
            Environment::Production => "production",
        }
    }

    /// Parses an environment name that has already been lowercased:
    /// `local` and `production` are accepted, anything else is refused with
    /// a message that repeats the name.
    pub fn parse_lowercase(lower: &str) -> (r: Result<Environment, String>)
        ensures
            result_view(r) == parse_lowercase_result(lower@),
    {
        let name = String::from_str(lower);
        if name == String::from_str("local") {
            Ok(Environment::Local)
        } else if name == String::from_str("production") {
            Ok(Environment::Production)
        } else {
            let mut message = name;
            message.append(" is not a supported environment. Use either `local` or `production`.");
            Err(message)
        }
    }

    /// Parses an environment name, ignoring case.
    pub fn parse(s: &str) -> (r: Result<Environment, String>)
        ensures
            result_view(r) == parse_result(s@),
    {
        let lower = to_lowercase(s);
        Environment::parse_lowercase(lower.as_str())
    }
}

/// The name of the configuration file for an environment.
pub open spec fn environment_file(environment: Environment) -> Seq<char> {
    environment.name() + ".yaml"@
}

/// Returns the name of the configuration file for an environment:
/// `{environment}.yaml`.
pub fn environment_file_name(environment: Environment) -> (f: String)
    ensures
        f@ == environment_file(environment),
{
    let mut f = String::from_str(environment.as_str());
    f.append(".yaml");
    f
}

/// A source of configuration values.
#[derive(Clone, Debug, PartialEq, Eq)]
pub enum ConfigurationSource {
    /// A YAML file, named relative to the configuration directory.
    File(String),
    /// Environment variables: `{prefix}{prefix_separator}{key}`, nested keys
    /// joined by `separator`.
    EnvironmentVariables {
        /// The prefix every such variable starts with.
        prefix: String,
        /// What follows the prefix.
        prefix_separator: String,
        /// What joins nested keys.
        separator: String,
    },
}

/// The configuration sources for an environment, in the order they are
/// applied; a value from a later source overrides one from an earlier
/// source: the base file, then the environment's file, then the `APP_`
/// environment variables (`APP_APPLICATION__PORT` sets `application.port`).
pub fn configuration_sources(environment: Environment) -> (sources: Vec<ConfigurationSource>)
    ensures
        sources@.len() == 3,
        sources@[0] matches ConfigurationSource::File(f) && f@ == "base.yaml"@,
        sources@[1] matches ConfigurationSource::File(f) && f@ == environment_file(environment),
        sources@[2] matches ConfigurationSource::EnvironmentVariables { prefix, prefix_separator, separator }
            && prefix@ == "APP"@ && prefix_separator@ == "_"@ && separator@ == "__"@,
{
    let mut sources = Vec::new();
    sources.push(ConfigurationSource::File(String::from_str(BASE_CONFIGURATION_FILE)));
    sources.push(ConfigurationSource::File(environment_file_name(environment)));
    sources.push(
        ConfigurationSource::EnvironmentVariables {
            prefix: String::from_str(ENVIRONMENT_PREFIX),
            prefix_separator: String::from_str(ENVIRONMENT_PREFIX_SEPARATOR),
            separator: String::from_str(ENVIRONMENT_KEY_SEPARATOR),
        },
    );
    sources
}

/// The environment name that applies when `APP_ENVIRONMENT` holds `setting`:
/// the variable's value, or `local` when it is unset.
pub open spec fn environment_name(setting: Option<Seq<char>>) -> Seq<char> {
    match setting {
        Some(s) => s,
        None => "local"@,
    }
}

/// What the value of `APP_ENVIRONMENT` (`None` when unset) resolves to.
pub open spec fn setting_result(setting: Option<Seq<char>>) -> Result<Environment, Seq<char>> {
    parse_result(environment_name(setting))
}

/// An unset `APP_ENVIRONMENT` selects the local environment.
pub proof fn lemma_unset_variable_is_local()
    ensures
        setting_result(None) == Ok::<Environment, Seq<char>>(Environment::Local),
{
    lemma_name_parses_back(Environment::Local);
}

/// A set `APP_ENVIRONMENT` selects the environment its value names, case
/// aside: `production` gives production, `local` gives local, and any other
/// value is refused with a message that repeats its lowercase form.
pub proof fn lemma_set_variable_names_environment(value: Seq<char>)
    ensures
        lowercase_name(value) == "production"@ ==> setting_result(Some(value)) == Ok::<
            Environment,
            Seq<char>,
        >(Environment::Production),
        lowercase_name(value) == "local"@ ==> setting_result(Some(value)) == Ok::<
            Environment,
            Seq<char>,
        >(Environment::Local),
        lowercase_name(value) != "local"@ && lowercase_name(value) != "production"@
            ==> setting_result(Some(value)) == Err::<Environment, Seq<char>>(
            lowercase_name(value) + unsupported_environment_suffix(),
        ),
{
    reveal_strlit("local");
    reveal_strlit("production");
    assert("production"@[0] != "local"@[0]);
    assert("production"@ != "local"@);
}

/// Determines the runtime environment from the value of `APP_ENVIRONMENT`
/// (`None` when it is unset): `local` by default; a name that does not parse
/// gives `ConfigurationError::InvalidEnvironment` with the parser's message.
pub fn environment_from_setting(setting: Option<String>) -> (r: Result<Environment, ConfigurationError>)
    ensures
        ({
            let name = environment_name(
                match setting {
                    Some(s) => Some(s@),
                    None => None,
                },
            );
            match parse_result(name) {
                Ok(e) => r == Ok::<Environment, ConfigurationError>(e),
                Err(m) => r matches Err(ConfigurationError::InvalidEnvironment(t)) && t@ == m,
            }
        }),
        match setting {
            None => r == Ok::<Environment, ConfigurationError>(Environment::Local),
            Some(s) => {
                &&& lowercase_name(s@) == "production"@ ==> r == Ok::<
                    Environment,
                    ConfigurationError,
                >(Environment::Production)
                &&& lowercase_name(s@) == "local"@ ==> r == Ok::<Environment, ConfigurationError>(
                    Environment::Local,
                )
                &&& lowercase_name(s@) != "local"@ && lowercase_name(s@) != "production"@ ==> (r matches Err(
                    ConfigurationError::InvalidEnvironment(t),
                ) && t@ == lowercase_name(s@) + unsupported_environment_suffix())
            },
        },
{
    proof {
        if setting is Some {
            lemma_set_variable_names_environment(setting->0@);
        } else {
            lemma_unset_variable_is_local();
        }
    }
    let name = match setting {
        Some(s) => s,
        None => String::from_str("local"),
    };
    match Environment::parse(name.as_str()) {
        Ok(e) => Ok(e),
        Err(m) => Err(ConfigurationError::InvalidEnvironment(m)),
    }
}

/// Errors that can occur when loading configuration.
#[derive(Debug)]
pub enum ConfigurationError {
    /// An I/O error occurred while reading configuration files.
    Io(String),
    /// An error occurred while parsing configuration files.
    Config(ConfigError),
    /// An invalid environment was specified.
    InvalidEnvironment(String),
}

impl ConfigurationError {
    /// The error for a working directory that cannot be determined, given the
    /// text of the underlying I/O error.
    pub fn current_dir_failure(detail: &str) -> (e: ConfigurationError)
        ensures
            e matches ConfigurationError::Io(m)
                && m@ == "Failed to determine the current directory: "@ + detail@,
    {
        let mut m = String::from_str("Failed to determine the current directory: ");
        m.append(detail);
        ConfigurationError::Io(m)
    }

    /// The error's display text, as its `Display` shows it.
    pub fn to_display_string(&self) -> (t: String)
        ensures
            self matches ConfigurationError::Io(m) ==> t@ == "I/O error: "@ + m@,
            self matches ConfigurationError::InvalidEnvironment(m) ==> t@ == "Invalid environment: "@
                + m@,
            self matches ConfigurationError::Config(e) ==> exists|d: String|
                to_string_from_display_ensures::<ConfigError>(&e, d) && t@ == "Configuration error: "@
                    + d@,
    {
        match self {
            ConfigurationError::Io(m) => {
                let mut t = String::from_str("I/O error: ");
                t.append(m.as_str());
                t
            },
            ConfigurationError::Config(e) => {
                let d = e.to_string();
                let mut t = String::from_str("Configuration error: ");
                t.append(d.as_str());
                t
            },
            ConfigurationError::InvalidEnvironment(m) => {
                let mut t = String::from_str("Invalid environment: ");
                t.append(m.as_str());
                t
            },
        }
    }
}

impl core::convert::From<ConfigError> for ConfigurationError {
    fn from(e: ConfigError) -> (r: ConfigurationError)
        ensures
            r == ConfigurationError::Config(e),
    {
        ConfigurationError::Config(e)
    }
}

impl vstd::std_specs::convert::FromSpecImpl<ConfigError> for ConfigurationError {
    open spec fn obeys_from_spec() -> bool {
        true
    }

    open spec fn from_spec(v: ConfigError) -> ConfigurationError {
        ConfigurationError::Config(v)
    }
}

/// The name of every environment parses back to that environment.
pub proof fn lemma_name_parses_back(environment: Environment)
    ensures
        parse_result(environment.name()) == Ok::<Environment, Seq<char>>(environment),
{
    reveal_strlit("local");
    reveal_strlit("production");
    let n = environment.name();
    assert(all_ascii(n));
    assert(ascii_lowercase(n) =~= n);
}

/// Parsing ignores the case of ASCII letters: an ASCII name parses as its
/// lowercase form does.
pub proof fn lemma_parse_ignores_ascii_case(name: Seq<char>)
    requires
        all_ascii(name),
    ensures
        parse_result(name) == parse_result(ascii_lowercase(name)),
{
    let lower = ascii_lowercase(name);
    assert forall|i: int| 0 <= i < lower.len() implies crate::text::is_ascii_char(#[trigger] lower[i]) by {
        assert(crate::text::is_ascii_char(name[i]));
    }
    assert(ascii_lowercase(lower) =~= lower);
}

/// An environment name is accepted exactly when its lowercase form is
/// `local` or `production`; the error repeats the lowercase form.
pub proof fn lemma_parse_accepts_exactly(name: Seq<char>)
    ensures
        parse_result(name) is Ok <==> (lowercase_name(name) == "local"@ || lowercase_name(name)
            == "production"@),
        parse_result(name) matches Err(m) ==> m == lowercase_name(name)
            + unsupported_environment_suffix(),
{
}

impl core::str::FromStr for Environment {
    type Err = String;

    fn from_str(s: &str) -> (r: Result<Self, Self::Err>)
        ensures
            result_view(r) == parse_result(s@),
    {
        Environment::parse(s)
    }
}

impl core::convert::TryFrom<String> for Environment {
    type Error = String;

    fn try_from(s: String) -> (r: Result<Self, Self::Error>)
        ensures
            result_view(r) == parse_result(s@),
    {
        Environment::parse(s.as_str())
    }
}

/// `try_from`'s own `ensures` states its result over the error's text; an
/// error `String` cannot be written as a spec value, so the generic
/// `TryFrom` specification is not claimed.
impl vstd::std_specs::convert::TryFromSpecImpl<String> for Environment {
    open spec fn obeys_try_from_spec() -> bool {
        false
    }

    open spec fn try_from_spec(v: String) -> Result<Environment, String> {
        vstd::pervasive::arbitrary()
    }
}

} // verus!
