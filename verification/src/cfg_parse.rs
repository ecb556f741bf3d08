//! Where the database is: the settings of a server and the choice among the
//! sources that can name it.

use crate::decimal::{decimal, push_decimal};
use vstd::prelude::*;

verus! {

/// The settings of a database server, as a credentials file or the command
/// line gives them.
#[derive(Debug)]
pub struct ServerConfig {
    pub db_host: String,
    pub db_port: u16,
    pub db_user: String,
    pub db_password: String,
    pub db_name: String,
}

/// What a [`ServerConfig`] holds, as plain values.
pub struct ServerConfigView {
    pub db_host: Seq<char>,
    pub db_port: int,
    pub db_user: Seq<char>,
    pub db_password: Seq<char>,
    pub db_name: Seq<char>,
}

impl View for ServerConfig {
    type V = ServerConfigView;

    open spec fn view(&self) -> ServerConfigView {
        ServerConfigView {
            db_host: self.db_host@,
            db_port: self.db_port as int,
            db_user: self.db_user@,
            db_password: self.db_password@,
            db_name: self.db_name@,
        }
    }
}

impl DeepView for ServerConfig {
    type V = ServerConfigView;

    open spec fn deep_view(&self) -> ServerConfigView {
        self@
    }
}

impl ServerConfigView {
    /// The address of the database on the server:
    /// `postgres://<user>:<password>@<host>:<port>/<name>`.
    pub open spec fn url(self) -> Seq<char> {
        "postgres://"@ + self.db_user + ":"@ + self.db_password + "@"@ + self.db_host + ":"@
            + decimal(self.db_port) + "/"@ + self.db_name
    }
}

impl ServerConfig {
    /// Writes the address of the database on the server.
    pub fn database_url(&self) -> (url: String)
        ensures
            url@ == self@.url(),
    {
        let mut url = String::from_str("postgres://");
        url.append(self.db_user.as_str());
        url.append(":");
        url.append(self.db_password.as_str());
        url.append("@");
        url.append(self.db_host.as_str());
        url.append(":");
        push_decimal(&mut url, self.db_port as i32);
        url.append("/");
        url.append(self.db_name.as_str());
        url
    }
}

/// Why the database is not known.
#[derive(Clone, Copy, Debug, PartialEq, Eq, Structural)]
pub enum ConfigError {
    /// Neither an address nor server settings nor a credentials file was given.
    MissingSource,
    /// More than one of them was given.
    ConflictingSources,
}

impl ConfigError {
    /// The status with which the process ends after the error: 1, as after
    /// every failure.
    pub fn exit_status(&self) -> (status: i32)
        ensures
            status == 1,
    {
        1
    }
}

/// How many of the three sources are given.
pub open spec fn source_count(
    url: Option<Seq<char>>,
    server: Option<ServerConfigView>,
    credentials: Option<ServerConfigView>,
) -> nat {
    (if url is Some {
        1nat
    } else {
        0nat
    }) + (if server is Some {
        1nat
    } else {
        0nat
    }) + (if credentials is Some {
        1nat
    } else {
        0nat
    })
}

/// The address of the database, if exactly one source names it: the address
/// itself, or that of the server of the settings or of the credentials file.
pub open spec fn resolved_url(
    url: Option<Seq<char>>,
    server: Option<ServerConfigView>,
    credentials: Option<ServerConfigView>,
) -> Result<Seq<char>, ConfigError> {
    if source_count(url, server, credentials) == 0 {
        Err(ConfigError::MissingSource)
    } else if source_count(url, server, credentials) > 1 {
        Err(ConfigError::ConflictingSources)
    } else if let Some(address) = url {
        Ok(address)
    } else if let Some(settings) = server {
        Ok(settings.url())
    } else {
        Ok(credentials->0.url())
    }
}

/// The text of a result, as plain text.
pub open spec fn url_view(result: Result<String, ConfigError>) -> Result<Seq<char>, ConfigError> {
    match result {
        Ok(address) => Ok(address@),
        Err(error) => Err(error),
    }
}

/// Chooses the address of the database among the sources that may name it:
/// an address, the settings of a server, or a credentials file that was
/// loaded. Exactly one of them must be given.
pub fn resolve_database_url(
    url: Option<String>,
    server: Option<ServerConfig>,
    credentials: Option<ServerConfig>,
) -> (result: Result<String, ConfigError>)
    ensures
        url_view(result) == resolved_url(
            url.deep_view(),
            server.deep_view(),
            credentials.deep_view(),
        ),
        result is Ok <==> source_count(url.deep_view(), server.deep_view(), credentials.deep_view())
            == 1,
{
    match (url, server, credentials) {
        (None, None, None) => Err(ConfigError::MissingSource),
        (Some(address), None, None) => Ok(address),
        (None, Some(settings), None) => Ok(settings.database_url()),
        (None, None, Some(settings)) => Ok(settings.database_url()),
        _ => Err(ConfigError::ConflictingSources),
    }
}

} // verus!
