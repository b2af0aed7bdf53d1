use vstd::prelude::*;
use vstd::std_specs::convert::TryFromSpecImpl;
use vstd::string::StringExecFns;

use crate::bindings::text::lowercase_of;
use crate::bindings::text::to_lowercase;

verus! {

/// The whole configuration of the service.
#[derive(Debug)]
pub struct Settings {
    pub application: ApplicationSettings,
    pub database: DatabaseSettings,
    pub jwt_secret: JwtSettings,
}

/// Where the service listens.
#[derive(Debug)]
pub struct ApplicationSettings {
    pub host: String,
    pub port: u16,
}

/// How the datastore is reached.
#[derive(Debug)]
pub struct DatabaseSettings {
    pub host: String,
    pub port: u16,
    pub username: String,
    pub password: String,
    pub database_name: String,
    pub require_ssl: bool,
}

/// How strictly a datastore connection insists on TLS.
#[derive(Debug, Clone, Copy, PartialEq, Eq, Structural)]
pub enum SslMode {
    /// Use TLS if the server offers it.
    Prefer,
    /// Refuse to connect without TLS.
    Require,
}

impl DatabaseSettings {
    /// TLS is required exactly when the settings say so; otherwise it is
    /// only preferred.
    pub fn ssl_mode(&self) -> (mode: SslMode)
        ensures
            mode == if self.require_ssl {
                SslMode::Require
            } else {
                SslMode::Prefer
            },
    {
        if self.require_ssl {
            SslMode::Require
        } else {
            SslMode::Prefer
        }
    }
}

/// The shared secret that session tokens are signed with.
#[derive(Debug)]
pub struct JwtSettings {
    pub secret_key: String,
}

/// The environment the service runs in.
#[derive(Debug, Clone, Copy, PartialEq, Eq, Structural)]
pub enum Environment {
    Local,
    Production,
}

/// The name of an environment.
pub open spec fn environment_name(environment: Environment) -> Seq<char> {
    match environment {
        Environment::Local => "local"@,
        Environment::Production => "production"@,
    }
}

/// The environment that a lower-case name stands for, or the message that
/// rejects the name.
pub open spec fn environment_named(name: Seq<char>) -> Result<Environment, Seq<char>> {
    if name == "local"@ {
        Ok(Environment::Local)
    } else if name == "production"@ {
        Ok(Environment::Production)
    } else {
        Err(name + " is not a supported environment. Use either `local` ot `production`"@)
    }
}

/// Whether `parsed` is what `expected` describes, the error compared by its text.
pub open spec fn matches_environment(
    parsed: Result<Environment, String>,
    expected: Result<Environment, Seq<char>>,
) -> bool {
    match (parsed, expected) {
        (Ok(a), Ok(b)) => a == b,
        (Err(a), Err(b)) => a@ == b,
        _ => false,
    }
}

impl Environment {
    pub fn as_str(&self) -> (name: &'static str)
        ensures
            name@ == environment_name(*self),
    {
        match self {
            Self::Local => "local",
            Self::Production => "production",
        }
    }

    /// Reads an environment from a name that is already in lower case.
    pub fn from_lowercase(name: String) -> (parsed: Result<Environment, String>)
        ensures
            matches_environment(parsed, environment_named(name@)),
    {
        if name == String::from_str("local") {
            Ok(Self::Local)
        } else if name == String::from_str("production") {
            Ok(Self::Production)
        } else {
            Err(name.concat(" is not a supported environment. Use either `local` ot `production`"))
        }
    }

    /// The environment to run in: the one the setting names, `Local` when
    /// nothing is set.
    pub fn from_setting(setting: Option<String>) -> (parsed: Result<Environment, String>)
        ensures
            match setting {
                Some(value) => matches_environment(
                    parsed,
                    environment_named(lowercase_of(value@)),
                ),
                None => parsed == Ok::<Environment, String>(Environment::Local),
            },
    {
        match setting {
            Some(value) => Environment::try_from(value),
            None => Ok(Self::Local),
        }
    }

    /// The name of the configuration file that belongs to this environment.
    pub fn configuration_file(&self) -> (file: String)
        ensures
            file@ == environment_name(*self) + ".yaml"@,
    {
        String::from_str(self.as_str()).concat(".yaml")
    }
}

impl TryFrom<String> for Environment {
    type Error = String;

    /// Reads an environment from its name, in any letter case.
    fn try_from(value: String) -> (parsed: Result<Self, String>)
        ensures
            matches_environment(parsed, environment_named(lowercase_of(value@))),
    {
        Environment::from_lowercase(to_lowercase(value.as_str()))
    }
}

/// The contract of `try_from` is the one written on it: an error is a
/// `String`, which a specification can describe only by its text.
impl TryFromSpecImpl<String> for Environment {
    open spec fn obeys_try_from_spec() -> bool {
        false
    }

    open spec fn try_from_spec(value: String) -> Result<Self, String> {
        match environment_named(lowercase_of(value@)) {
            Ok(environment) => Ok(environment),
            Err(message) => Err(choose|text: String| text@ == message),
        }
    }
}

} // verus!
