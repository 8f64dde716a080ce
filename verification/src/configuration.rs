//! The settings that the service starts from.

use crate::domain::rejection::Field;
use crate::domain::rejection::Rejection;
use crate::domain::subscriber_email::email_rejection;
use crate::domain::subscriber_email::is_valid_email;
use crate::domain::subscriber_email::SubscriberEmail;
use crate::email_client::EmailClient;
use crate::secret::Secret;
use crate::timeout::Timeout;
use vstd::prelude::*;
use vstd::string::StringExecFns;

verus! {

/// The lower-case equivalent of `s` under Unicode's rules, as
/// `str::to_lowercase` gives it.
pub uninterp spec fn lowercase(s: Seq<char>) -> Seq<char>;

/// `str::to_lowercase` returns the lower-case equivalent of the text, which
/// depends on the text alone.
pub assume_specification[ str::to_lowercase ](s: &str) -> (lower: String)
    ensures
        lower@ == lowercase(s@),
;

/// All the settings of the service.
#[derive(Debug)]
pub struct Settings {
    pub application: ApplicationSettings,
    pub database: DatabaseSettings,
    pub email_client: EmailClientSettings,
}

/// Where the service listens, and the address it is reached at from outside.
#[derive(Debug, Clone)]
pub struct ApplicationSettings {
    pub port: u16,
    pub host: String,
    pub base_url: String,
}

/// How the database is reached.
#[derive(Debug)]
pub struct DatabaseSettings {
    pub port: u16,
    pub username: String,
    pub password: Secret,
    pub host: String,
    pub database_name: String,
    pub require_ssl: bool,
    /// A connection string that, where it is given, replaces all the rest.
    pub connection_string: Option<Secret>,
}

/// What the email client is set up from.
#[derive(Debug)]
pub struct EmailClientSettings {
    pub base_url: String,
    pub sender_email: String,
    pub authorization_token: Secret,
    pub timeout_milliseconds: u64,
}

/// Whether a connection must be encrypted.
#[derive(Debug, Clone, Copy, PartialEq, Eq, Structural)]
pub enum SslMode {
    /// Encrypt where the server can.
    Prefer,
    /// Refuse to connect without encryption.
    Require,
}

/// Where the options of a connection come from.
#[derive(Debug)]
pub enum ConnectSource<'a> {
    /// From one connection string, to be parsed.
    Url { url: &'a Secret },
    /// From the settings, field by field.
    Fields {
        host: &'a str,
        port: u16,
        username: &'a str,
        password: &'a Secret,
        ssl_mode: SslMode,
        /// The database to open; none connects to the server alone.
        database: Option<&'a str>,
    },
}

/// The options of a database connection.
#[derive(Debug)]
pub struct ConnectOptions<'a> {
    pub source: ConnectSource<'a>,
    /// Whether every statement is logged, at trace level.
    pub log_statements: bool,
}

impl DatabaseSettings {
    /// The mode that the settings ask for.
    pub open spec fn ssl_mode(&self) -> SslMode {
        if self.require_ssl {
            SslMode::Require
        } else {
            SslMode::Prefer
        }
    }

    /// `source` is where these settings take a connection from, when the
    /// connection is to open `database`.
    pub open spec fn connects_by(
        &self,
        database: Option<Seq<char>>,
        source: ConnectSource<'_>,
    ) -> bool {
        match self.connection_string {
            Some(connection_string) => {
                &&& source matches ConnectSource::Url { url }
                &&& *url == connection_string
            },
            None => {
                &&& source matches ConnectSource::Fields {
                    host,
                    port,
                    username,
                    password,
                    ssl_mode,
                    database: opened,
                }
                &&& host@ == self.host@
                &&& port == self.port
                &&& username@ == self.username@
                &&& *password == self.password
                &&& ssl_mode == self.ssl_mode()
                &&& match opened {
                    Some(name) => database == Some(name@),
                    None => database is None,
                }
            },
        }
    }

    /// The options of a connection to the server, with no database opened
    /// and no statement logged. A connection string, where there is one,
    /// stands for everything.
    pub fn without_db(&self) -> (options: ConnectOptions<'_>)
        ensures
            self.connects_by(None, options.source),
            !options.log_statements,
    {
        let source = match &self.connection_string {
            Some(connection_string) => ConnectSource::Url { url: connection_string },
            None => {
                let ssl_mode = if self.require_ssl {
                    SslMode::Require
                } else {
                    SslMode::Prefer
                };
                ConnectSource::Fields {
                    host: self.host.as_str(),
                    port: self.port,
                    username: self.username.as_str(),
                    password: &self.password,
                    ssl_mode,
                    database: None,
                }
            },
        };
        ConnectOptions { source, log_statements: false }
    }

    /// The options of a connection to the service's database, with every
    /// statement logged. A connection string, where there is one, names the
    /// database itself.
    pub fn with_db(&self) -> (options: ConnectOptions<'_>)
        ensures
            self.connects_by(
                if self.connection_string is Some {
                    None
                } else {
                    Some(self.database_name@)
                },
                options.source,
            ),
            options.log_statements,
    {
        let source = match self.without_db().source {
            ConnectSource::Url { url } => ConnectSource::Url { url },
            ConnectSource::Fields { host, port, username, password, ssl_mode, database: _ } => {
                ConnectSource::Fields {
                    host,
                    port,
                    username,
                    password,
                    ssl_mode,
                    database: Some(self.database_name.as_str()),
                }
            },
        };
        ConnectOptions { source, log_statements: true }
    }
}

impl EmailClientSettings {
    /// The sender's address, validated.
    pub fn sender(&self) -> (parsed: Result<SubscriberEmail, Rejection>)
        ensures
            parsed is Ok <==> is_valid_email(self.sender_email@),
            match parsed {
                Ok(email) => email@ == self.sender_email@,
                Err(rejection) => {
                    &&& rejection.field == Field::Email
                    &&& Some(rejection.reason) == email_rejection(self.sender_email@)
                    &&& rejection.input@ == self.sender_email@
                },
            },
    {
        SubscriberEmail::parse(self.sender_email.clone())
    }

    /// The time that one request may take.
    pub fn timeout(&self) -> (timeout: Timeout)
        ensures
            timeout.millis() == self.timeout_milliseconds,
            timeout.secs() == self.timeout_milliseconds / 1000,
            timeout.nanos() == (self.timeout_milliseconds % 1000) * 1_000_000,
    {
        Timeout::from_millis(self.timeout_milliseconds)
    }

    /// The client that these settings describe, or the reason why the
    /// sender's address is none.
    pub fn client(self) -> (built: Result<EmailClient, Rejection>)
        ensures
            built is Ok <==> is_valid_email(self.sender_email@),
            match built {
                Ok(client) => {
                    &&& client@.base_url == self.base_url@
                    &&& client@.sender == self.sender_email@
                    &&& client@.authorization_token == self.authorization_token@
                    &&& client@.timeout.millis() == self.timeout_milliseconds
                },
                Err(rejection) => {
                    &&& rejection.field == Field::Email
                    &&& Some(rejection.reason) == email_rejection(self.sender_email@)
                    &&& rejection.input@ == self.sender_email@
                },
            },
    {
        let timeout = self.timeout();
        match SubscriberEmail::parse(self.sender_email) {
            Ok(sender) => Ok(
                EmailClient::new(self.base_url, sender, self.authorization_token, timeout),
            ),
            Err(rejection) => Err(rejection),
        }
    }
}

/// Where the service runs.
#[derive(Debug, Clone, Copy, PartialEq, Eq, Structural)]
pub enum Environment {
    Local,
    Production,
}

/// The environment that `name` stands for, if any. Case matters here.
pub open spec fn environment_named(name: Seq<char>) -> Option<Environment> {
    if name == "local"@ {
        Some(Environment::Local)
    } else if name == "production"@ {
        Some(Environment::Production)
    } else {
        None
    }
}

/// What follows a name that stands for no environment, in the error.
pub open spec fn unsupported_tail() -> Seq<char> {
    " is not a supported environment. Use either 'local' or 'production'."@
}

impl Environment {
    /// The environment's name, in lower case.
    pub fn as_str(&self) -> (name: &'static str)
        ensures
            name@ == match self {
                Environment::Local => "local"@,
                Environment::Production => "production"@,
            },
            environment_named(name@) == Some(*self),
    {
        proof {
            lemma_names_differ();
        }
        match self {
            Environment::Local => "local",
            Environment::Production => "production",
        }
    }

    /// The environment that a lower-case name stands for, or an error that
    /// quotes the name.
    pub fn from_lowercase(name: &str) -> (parsed: Result<Environment, String>)
        ensures
            match parsed {
                Ok(environment) => environment_named(name@) == Some(environment),
                Err(message) => {
                    &&& environment_named(name@) is None
                    &&& message@ == name@ + unsupported_tail()
                },
            },
    {
        if name.eq("local") {
            Ok(Environment::Local)
        } else if name.eq("production") {
            Ok(Environment::Production)
        } else {
            Err(
                String::from_str(name).concat(
                    " is not a supported environment. Use either 'local' or 'production'.",
                ),
            )
        }
    }

    /// The environment that `s` names, whatever its case.
    pub fn try_from(s: String) -> (parsed: Result<Environment, String>)
        ensures
            match parsed {
                Ok(environment) => environment_named(lowercase(s@)) == Some(environment),
                Err(message) => {
                    &&& environment_named(lowercase(s@)) is None
                    &&& message@ == lowercase(s@) + unsupported_tail()
                },
            },
    {
        let lower = s.as_str().to_lowercase();
        Environment::from_lowercase(lower.as_str())
    }
}

/// The two names are different texts.
pub proof fn lemma_names_differ()
    ensures
        "local"@ != "production"@,
{
    reveal_strlit("local");
    reveal_strlit("production");
    assert("local"@.len() != "production"@.len());
}

} // verus!
