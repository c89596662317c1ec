//! Application configuration: the environment the application runs in, the
//! configuration records, and the plan by which they are loaded.
use vstd::prelude::*;
use crate::text::{
    ascii_lowercase, is_ascii_chars, lemma_ascii_lowercase_idempotent, lowercase, str_equals,
    to_lowercase,
};

verus! {

/// The application configuration: the application settings and the
/// database settings. Settings of an environment-specific file override
/// those of the main file, and environment variables override both.
#[derive(Clone, Debug)]
pub struct Config {
    pub app: AppConfig,
    pub database: DatabaseConfig,
}

/// Application settings.
#[derive(Clone, Debug)]
pub struct AppConfig {
    /// The name of the app which can be presented in the UI.
    pub name: String,
}

impl Default for AppConfig {
    /// The default application settings: the name `web`.
    fn default() -> (r: Self)
        ensures
            r.name@ == "web"@,
    {
        AppConfig { name: String::from_str("web") }
    }
}

/// Database settings.
#[derive(Clone, Debug)]
pub struct DatabaseConfig {
    /// The URL to use to connect to the database, e.g. "sqlite://database.db".
    pub url: String,
}

/// The environment the application runs in.
#[derive(Clone, Copy, Debug, PartialEq, Eq, Structural)]
pub enum Environment {
    /// What developers use locally.
    Development,
    /// A staging deployment of the app.
    Staging,
    /// The released, user-facing deployment of the app.
    Production,
    /// The environment of the test runs.
    Test,
}

/// The name of an environment, as it is shown to users.
pub open spec fn environment_name(env: Environment) -> Seq<char> {
    match env {
        Environment::Development => "development"@,
        Environment::Staging => "staging"@,
        Environment::Production => "production"@,
        Environment::Test => "test"@,
    }
}

/// The environment that an already lowercased name stands for, if any.
/// Each environment is accepted under its full name and under a short form.
pub open spec fn environment_from_lowercase(s: Seq<char>) -> Option<Environment> {
    if s == "dev"@ || s == "development"@ {
        Some(Environment::Development)
    } else if s == "stage"@ || s == "staging"@ {
        Some(Environment::Staging)
    } else if s == "test"@ {
        Some(Environment::Test)
    } else if s == "prod"@ || s == "production"@ {
        Some(Environment::Production)
    } else {
        None
    }
}

/// Why a configuration value was refused.
#[derive(Clone, Debug)]
pub enum ConfigError {
    /// The environment name (lowercased) matches no environment.
    UnknownEnvironment(String),
    /// The variable that names the environment is set, but its value is not
    /// valid Unicode.
    InvalidUnicode,
}

impl ConfigError {
    /// The message of the error: `Unknown environment: "<name>"!`.
    pub fn message(&self) -> (r: String)
        ensures
            match self {
                ConfigError::UnknownEnvironment(name) => r@ == "Unknown environment: \""@ + name@
                    + "\"!"@,
                ConfigError::InvalidUnicode => r@ == "Environment name is not valid Unicode!"@,
            },
    {
        match self {
            ConfigError::UnknownEnvironment(name) => {
                let mut r = String::from_str("Unknown environment: \"");
                r.append(name.as_str());
                r.append("\"!");
                r
            },
            ConfigError::InvalidUnicode => String::from_str("Environment name is not valid Unicode!"),
        }
    }
}

impl Environment {
    /// The name of the environment, as `Display` shows it.
    pub fn to_string(&self) -> (r: String)
        ensures
            r@ == environment_name(*self),
    {
        match self {
            Environment::Development => String::from_str("development"),
            Environment::Staging => String::from_str("staging"),
            Environment::Production => String::from_str("production"),
            Environment::Test => String::from_str("test"),
        }
    }
}

/// The result of parsing an environment name that is already lowercase.
pub open spec fn parse_lowercase_result(s: Seq<char>, r: Result<Environment, ConfigError>) -> bool {
    match environment_from_lowercase(s) {
        Some(env) => r == Ok::<Environment, ConfigError>(env),
        None => r matches Err(ConfigError::UnknownEnvironment(name)) && name@ == s,
    }
}

/// Parses an environment name that is already lowercase: "dev" or
/// "development", "stage" or "staging", "test", "prod" or "production".
/// Any other name is refused with `UnknownEnvironment` holding the name.
pub fn parse_lowercase_env(env: &str) -> (r: Result<Environment, ConfigError>)
    ensures
        parse_lowercase_result(env@, r),
{
    if str_equals(env, "dev") || str_equals(env, "development") {
        Ok(Environment::Development)
    } else if str_equals(env, "stage") || str_equals(env, "staging") {
        Ok(Environment::Staging)
    } else if str_equals(env, "test") {
        Ok(Environment::Test)
    } else if str_equals(env, "prod") || str_equals(env, "production") {
        Ok(Environment::Production)
    } else {
        Err(ConfigError::UnknownEnvironment(String::from_str(env)))
    }
}

/// Parses an environment from a string, in any letter case: the string is
/// lowercased first, then parsed as `parse_lowercase_env` does.
pub fn parse_env(env: &str) -> (r: Result<Environment, ConfigError>)
    ensures
        parse_lowercase_result(lowercase(env@), r),
        is_ascii_chars(env@) ==> parse_lowercase_result(ascii_lowercase(env@), r),
{
    let lowered = to_lowercase(env);
    parse_lowercase_env(lowered.as_str())
}

/// The value of the variable that names the environment, as the process
/// environment gives it.
#[derive(Clone, Debug)]
pub enum EnvVariable {
    /// The variable is not set.
    Absent,
    /// The variable is set to this value.
    Present(String),
    /// The variable is set, but its value is not valid Unicode.
    NotUnicode,
}

/// Chooses the environment from the variable that names it: development
/// when the variable is not set, else the parsed value; a value that is not
/// valid Unicode is refused.
pub fn env_from_variable(value: &EnvVariable) -> (r: Result<Environment, ConfigError>)
    ensures
        match value {
            EnvVariable::Absent => r == Ok::<Environment, ConfigError>(Environment::Development),
            EnvVariable::Present(v) => parse_lowercase_result(lowercase(v@), r),
            EnvVariable::NotUnicode => r matches Err(ConfigError::InvalidUnicode),
        },
{
    match value {
        EnvVariable::Absent => Ok(Environment::Development),
        EnvVariable::Present(v) => parse_env(v.as_str()),
        EnvVariable::NotUnicode => Err(ConfigError::InvalidUnicode),
    }
}

/// Exactly seven names are accepted, each for its own environment:
/// "development" and "dev", "staging" and "stage", "test", "production" and
/// "prod". Any other (lowercased) name is refused, and the refusal holds that
/// very name.
pub proof fn lemma_only_listed_names(s: Seq<char>, r: Result<Environment, ConfigError>)
    requires
        parse_lowercase_result(s, r),
    ensures
        r matches Ok(e) ==> {
            ||| e == Environment::Development && (s == "development"@ || s == "dev"@)
            ||| e == Environment::Staging && (s == "staging"@ || s == "stage"@)
            ||| e == Environment::Test && s == "test"@
            ||| e == Environment::Production && (s == "production"@ || s == "prod"@)
        },
        s == "development"@ || s == "dev"@ ==> r == Ok::<Environment, ConfigError>(
            Environment::Development,
        ),
        s == "staging"@ || s == "stage"@ ==> r == Ok::<Environment, ConfigError>(
            Environment::Staging,
        ),
        s == "test"@ ==> r == Ok::<Environment, ConfigError>(Environment::Test),
        s == "production"@ || s == "prod"@ ==> r == Ok::<Environment, ConfigError>(
            Environment::Production,
        ),
        !(s == "development"@ || s == "dev"@ || s == "staging"@ || s == "stage"@ || s == "test"@
            || s == "production"@ || s == "prod"@) ==> (r matches Err(
            ConfigError::UnknownEnvironment(name),
        ) && name@ == s),
{
    reveal_strlit("dev");
    reveal_strlit("development");
    reveal_strlit("stage");
    reveal_strlit("staging");
    reveal_strlit("test");
    reveal_strlit("prod");
    reveal_strlit("production");
    assert("dev"@.len() == 3 && "dev"@[0] == 'd');
    assert("development"@.len() == 11 && "development"@[0] == 'd');
    assert("stage"@.len() == 5 && "stage"@[0] == 's');
    assert("staging"@.len() == 7 && "staging"@[0] == 's');
    assert("test"@.len() == 4 && "test"@[0] == 't');
    assert("prod"@.len() == 4 && "prod"@[0] == 'p');
    assert("production"@.len() == 10 && "production"@[0] == 'p');
}

/// For an ASCII string, parsing it and parsing its lowercase agree: both
/// give the same environment, or both refuse the same lowercased name.
/// (`r1` is what `parse_env` states for `s`, `r2` what it states for the
/// lowercase of `s`.)
pub proof fn lemma_parse_env_agrees_with_lowercase(
    s: Seq<char>,
    r1: Result<Environment, ConfigError>,
    r2: Result<Environment, ConfigError>,
)
    requires
        is_ascii_chars(s),
        parse_lowercase_result(ascii_lowercase(s), r1),
        parse_lowercase_result(ascii_lowercase(ascii_lowercase(s)), r2),
    ensures
        r1 is Ok <==> r2 is Ok,
        r1 is Ok ==> r1 == r2,
        r1 matches Err(ConfigError::UnknownEnvironment(a)) ==> r2 matches Err(
            ConfigError::UnknownEnvironment(b),
        ) && a@ == b@,
{
    lemma_ascii_lowercase_idempotent(s);
}

/// Which `.env` file is loaded into the process environment before the
/// configuration is read.
#[derive(Clone, Debug)]
pub enum DotenvSource {
    /// The `.env` file of the working directory or of one of its parents.
    Default,
    /// The file with the given name, relative to the working directory.
    File(String),
    /// The file with the given name inside the given directory.
    InDirectory { dir: String, file: String },
    /// No `.env` file is loaded.
    Skip,
}

/// The `.env` file for an environment, given the directory that the
/// variable naming the `.env` directory holds, if it is set. Development
/// loads `.env`, test loads `.env.test`, each from that directory when it
/// is given; staging and production load no file.
pub fn dotenv_source(env: &Environment, dotenv_dir: Option<String>) -> (r: DotenvSource)
    ensures
        match (*env, dotenv_dir) {
            (Environment::Development, None) => r is Default,
            (Environment::Test, None) => r matches DotenvSource::File(f) && f@ == ".env.test"@,
            (Environment::Development, Some(d)) => r matches DotenvSource::InDirectory { dir, file }
                && dir@ == d@ && file@ == ".env"@,
            (Environment::Test, Some(d)) => r matches DotenvSource::InDirectory { dir, file }
                && dir@ == d@ && file@ == ".env.test"@,
            _ => r is Skip,
        },
{
    match (env, dotenv_dir) {
        (Environment::Development, None) => DotenvSource::Default,
        (Environment::Test, None) => DotenvSource::File(String::from_str(".env.test")),
        (Environment::Development, Some(dir)) => DotenvSource::InDirectory {
            dir,
            file: String::from_str(".env"),
        },
        (Environment::Test, Some(dir)) => DotenvSource::InDirectory {
            dir,
            file: String::from_str(".env.test"),
        },
        _ => DotenvSource::Skip,
    }
}

/// The name of the environment-specific configuration file.
pub open spec fn environment_file_name(env: Environment) -> Seq<char> {
    environment_name(env) + ".toml"@
}

/// The path of the environment-specific configuration file:
/// `config/environments/<environment>.toml`.
pub fn environment_config_path(env: &Environment) -> (r: String)
    ensures
        r@ == "config/environments/"@ + environment_file_name(*env),
{
    let file = match env {
        Environment::Development => "development.toml",
        Environment::Staging => "staging.toml",
        Environment::Production => "production.toml",
        Environment::Test => "test.toml",
    };
    proof {
        reveal_strlit("development.toml");
        reveal_strlit("staging.toml");
        reveal_strlit("production.toml");
        reveal_strlit("test.toml");
        reveal_strlit("development");
        reveal_strlit("staging");
        reveal_strlit("production");
        reveal_strlit("test");
        reveal_strlit(".toml");
        assert(file@ =~= environment_file_name(*env));
    }
    let mut r = String::from_str("config/environments/");
    r.append(file);
    r
}

/// One layer of the configuration. Layers are merged in order, and a
/// setting of a later layer overrides the same setting of an earlier one.
#[derive(Clone, Debug)]
pub enum ConfigSource {
    /// The default application settings, placed under the given key.
    AppDefaults { key: String },
    /// A TOML file at the given path.
    TomlFile { path: String },
    /// The process environment variables that start with `prefix`, with the
    /// prefix removed and nested keys separated by `separator`.
    EnvVariables { prefix: String, separator: String },
}

/// The layers of the configuration of an environment, in merge order: the
/// default application settings under the key `database`, then
/// `config/app.toml`, then the environment's own file, then the variables
/// that start with `APP_`, whose nested keys are separated by `__`.
pub fn config_sources(env: &Environment) -> (r: Vec<ConfigSource>)
    ensures
        r@.len() == 4,
        r@[0] matches ConfigSource::AppDefaults { key } && key@ == "database"@,
        r@[1] matches ConfigSource::TomlFile { path } && path@ == "config/app.toml"@,
        r@[2] matches ConfigSource::TomlFile { path } && path@ == "config/environments/"@
            + environment_file_name(*env),
        r@[3] matches ConfigSource::EnvVariables { prefix, separator } && prefix@ == "APP_"@
            && separator@ == "__"@,
{
    let mut r: Vec<ConfigSource> = Vec::new();
    r.push(ConfigSource::AppDefaults { key: String::from_str("database") });
    r.push(ConfigSource::TomlFile { path: String::from_str("config/app.toml") });
    r.push(ConfigSource::TomlFile { path: environment_config_path(env) });
    r.push(
        ConfigSource::EnvVariables {
            prefix: String::from_str("APP_"),
            separator: String::from_str("__"),
        },
    );
    r
}

/// The name shown for every environment parses back to that environment:
/// `parse_lowercase_env` accepts it and gives that environment.
pub proof fn lemma_name_parses_back(env: Environment)
    ensures
        environment_from_lowercase(environment_name(env)) == Some(env),
{
    reveal_strlit("dev");
    reveal_strlit("development");
    reveal_strlit("stage");
    reveal_strlit("staging");
    reveal_strlit("test");
    reveal_strlit("prod");
    reveal_strlit("production");
    assert("dev"@.len() == 3 && "dev"@[0] == 'd');
    assert("development"@.len() == 11 && "development"@[0] == 'd');
    assert("stage"@.len() == 5 && "stage"@[0] == 's');
    assert("staging"@.len() == 7 && "staging"@[0] == 's');
    assert("test"@.len() == 4 && "test"@[0] == 't');
    assert("prod"@.len() == 4 && "prod"@[0] == 'p');
    assert("production"@.len() == 10 && "production"@[0] == 'p');
}

/// Each environment has a short form that stands for it as its full name
/// does: "dev", "stage" and "prod".
pub proof fn lemma_short_forms(env: Environment)
    ensures
        env == Environment::Development ==> environment_from_lowercase("dev"@) == Some(env),
        env == Environment::Staging ==> environment_from_lowercase("stage"@) == Some(env),
        env == Environment::Production ==> environment_from_lowercase("prod"@) == Some(env),
{
    reveal_strlit("dev");
    reveal_strlit("development");
    reveal_strlit("stage");
    reveal_strlit("staging");
    reveal_strlit("test");
    reveal_strlit("prod");
    assert("stage"@.len() == 5 && "stage"@[0] == 's');
    assert("prod"@.len() == 4 && "prod"@[0] == 'p');
    assert("dev"@.len() == 3 && "dev"@[0] == 'd');
    assert("development"@.len() == 11 && "staging"@.len() == 7 && "test"@.len() == 4);
    assert("test"@[0] == 't');
}

} // verus!
