//! What the command line says, as plain values.

use crate::cfg_parse::{ServerConfig, ServerConfigView};
use vstd::prelude::*;

verus! {

/// What the generator is asked to do.
#[derive(Debug)]
pub enum Command {
    /// Generate the document.
    Generate {
        /// Whether the properties of the statistics tier are listed.
        stats: bool,
        /// Whether every generated query is run once before the document is emitted.
        verify: bool,
        /// The identifiers of the devices to leave out.
        skip: Vec<i16>,
        /// The file to write, standard output if there is none.
        out: Option<String>,
        /// The name of this instance, for the key of the section.
        name: Option<String>,
    },
}

/// The arguments of the command line.
#[derive(Debug)]
pub struct Cli {
    /// The address of the database.
    pub url: Option<String>,
    /// The credentials file.
    pub credentials: Option<String>,
    /// The host of the database server.
    pub host: Option<String>,
    /// The port of the database server.
    pub port: u16,
    /// The user of the database.
    pub username: Option<String>,
    /// The password of the user.
    pub password: Option<String>,
    /// The name of the database.
    pub database: Option<String>,
    pub command: Command,
}

/// What a [`Cli`] says of the database server, as plain values.
pub struct CliView {
    pub host: Option<Seq<char>>,
    pub port: int,
    pub username: Option<Seq<char>>,
    pub password: Option<Seq<char>>,
    pub database: Option<Seq<char>>,
}

impl CliView {
    /// The server that the arguments name. They name one if host, user,
    /// password and database are all given.
    pub open spec fn server(self) -> Option<ServerConfigView> {
        if self.host is Some && self.username is Some && self.password is Some
            && self.database is Some {
            Some(
                ServerConfigView {
                    db_host: self.host->0,
                    db_port: self.port,
                    db_user: self.username->0,
                    db_password: self.password->0,
                    db_name: self.database->0,
                },
            )
        } else {
            None
        }
    }
}

impl View for Cli {
    type V = CliView;

    open spec fn view(&self) -> CliView {
        CliView {
            host: self.host.deep_view(),
            port: self.port as int,
            username: self.username.deep_view(),
            password: self.password.deep_view(),
            database: self.database.deep_view(),
        }
    }
}

impl Cli {
    /// The settings of the server that the arguments name, if they name one.
    pub fn server(&self) -> (server: Option<ServerConfig>)
        ensures
            server.deep_view() == self@.server(),
    {
        match (&self.host, &self.username, &self.password, &self.database) {
            (Some(host), Some(username), Some(password), Some(database)) => Some(
                ServerConfig {
                    db_host: host.clone(),
                    db_port: self.port,
                    db_user: username.clone(),
                    db_password: password.clone(),
                    db_name: database.clone(),
                },
            ),
            _ => None,
        }
    }
}

} // verus!
