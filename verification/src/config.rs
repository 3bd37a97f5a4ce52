//! Service configuration: where the database lives and how its pool is
//! sized.
//!
//! The shell decides the platform directories, reads and writes the
//! configuration file, and parses it; the values themselves, and the
//! defaults that do not depend on the platform, live here.

use vstd::prelude::*;

verus! {

/// How the session store's database is opened.
pub struct SqliteConfig {
    /// Path of the database file.
    pub db_path: String,
    /// Cap of the store's connection pool. Writes go through a
    /// write-ahead log, so a high ceiling does not let writes lock reads.
    pub max_connections: u32,
    /// Whether the store is opened read-only.
    pub read_only: bool,
}

impl SqliteConfig {
    /// The default store configuration for a database at `db_path`:
    /// sixty-four pooled connections, writable.
    pub fn new(db_path: String) -> (c: SqliteConfig)
        ensures
            c.db_path == db_path,
            c.max_connections == 64,
            c.read_only == false,
    {
        SqliteConfig { db_path, max_connections: 64, read_only: false }
    }
}

/// The service's configuration.
pub struct Config {
    /// The session store's configuration.
    pub sqlite_config: SqliteConfig,
    /// Path of the configuration file itself, for saving changes back.
    pub config_path: String,
}

impl Config {
    /// A configuration from its parts.
    pub fn new(sqlite_config: SqliteConfig, config_path: String) -> (c: Config)
        ensures
            c.sqlite_config == sqlite_config,
            c.config_path == config_path,
    {
        Config { sqlite_config, config_path }
    }
}

} // verus!
