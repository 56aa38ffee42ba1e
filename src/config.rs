//! Startup configuration, built once from the texts the environment and the
//! configuration file supply, then passed by value to what needs it.
use crate::text::{bounded_decimal, parse_u16};
use vstd::prelude::*;

verus! {

/// Which configured value could not be read.
#[derive(Clone, Copy, Debug, PartialEq, Eq, Structural)]
pub enum ConfigError {
    InvalidGameListenPort,
    InvalidAdminListenPort,
    InvalidDatabasePort,
}

/// The ports the server listens on.
#[derive(Clone, Copy, Debug, PartialEq, Eq, Structural)]
pub struct ServerConfig {
    pub game_listen_port: u16,
    pub admin_listen_port: u16,
}

impl ServerConfig {
    /// Reads both ports, each a decimal `u16`.
    pub fn load(game_listen_port: &str, admin_listen_port: &str) -> (r: Result<
        ServerConfig,
        ConfigError,
    >)
        ensures
            ({
                let g = bounded_decimal(game_listen_port@, u16::MAX as nat);
                let a = bounded_decimal(admin_listen_port@, u16::MAX as nat);
                r == if g is None {
                    Err(ConfigError::InvalidGameListenPort)
                } else if a is None {
                    Err(ConfigError::InvalidAdminListenPort)
                } else {
                    Ok(ServerConfig { game_listen_port: g->0 as u16, admin_listen_port: a->0 as u16 })
                }
            }),
    {
        let game_listen_port = match parse_u16(game_listen_port) {
            Some(p) => p,
            None => return Err(ConfigError::InvalidGameListenPort),
        };
        let admin_listen_port = match parse_u16(admin_listen_port) {
            Some(p) => p,
            None => return Err(ConfigError::InvalidAdminListenPort),
        };
        Ok(ServerConfig { game_listen_port, admin_listen_port })
    }
}

/// Where and as whom to reach the database.
#[derive(Debug)]
pub struct DatabaseConfig {
    pub host: String,
    pub port: u16,
    pub user: String,
    pub password: String,
    pub database: String,
}

impl DatabaseConfig {
    /// Keeps the texts as given and reads the port as a decimal `u16`.
    pub fn load(host: &str, port: &str, user: &str, password: &str, database: &str) -> (r: Result<
        DatabaseConfig,
        ConfigError,
    >)
        ensures
            bounded_decimal(port@, u16::MAX as nat) is None <==> r == Err::<
                DatabaseConfig,
                ConfigError,
            >(ConfigError::InvalidDatabasePort),
            bounded_decimal(port@, u16::MAX as nat) is Some ==> r is Ok,
            r matches Ok(c) ==> {
                &&& c.host@ == host@
                &&& bounded_decimal(port@, u16::MAX as nat) == Some(c.port as nat)
                &&& c.user@ == user@
                &&& c.password@ == password@
                &&& c.database@ == database@
            },
    {
        let port = match parse_u16(port) {
            Some(p) => p,
            None => return Err(ConfigError::InvalidDatabasePort),
        };
        Ok(
            DatabaseConfig {
                host: host.to_owned(),
                port,
                user: user.to_owned(),
                password: password.to_owned(),
                database: database.to_owned(),
            },
        )
    }
}

/// The whole startup configuration.
#[derive(Clone, Copy, Debug, PartialEq, Eq, Structural)]
pub struct Config {
    pub cheat_enabled: bool,
    pub game_listen_port: u16,
    pub admin_listen_port: u16,
}

/// Builds the configuration value from the configuration file's switch and
/// the listening ports.
pub fn config(cheat_enabled: bool, server: ServerConfig) -> (r: Config)
    ensures
        r == (Config {
            cheat_enabled,
            game_listen_port: server.game_listen_port,
            admin_listen_port: server.admin_listen_port,
        }),
{
    Config {
        cheat_enabled,
        game_listen_port: server.game_listen_port,
        admin_listen_port: server.admin_listen_port,
    }
}

} // verus!
