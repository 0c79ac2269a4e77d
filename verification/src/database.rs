//! Plain data carried between the core and the storage collaborator.
//!
//! Persistence itself is an external collaborator and stays outside
//! the library; these are the configuration and summary values the
//! core exchanges with it.

use vstd::prelude::*;

verus! {

/// Connection settings for the storage collaborator.
#[derive(Debug, Clone, PartialEq)]
pub struct DatabaseConfig {
    pub url: String,
    pub max_connections: u32,
    pub min_connections: u32,
    /// Seconds.
    pub connect_timeout: u64,
    /// Seconds.
    pub idle_timeout: u64,
}

impl DatabaseConfig {
    /// Builds a configuration for a connection string with the
    /// conventional pool limits and timeouts.
    pub fn new(url: String) -> (r: DatabaseConfig)
        ensures
            r.url == url,
            r.max_connections == 10,
            r.min_connections == 1,
            r.connect_timeout == 30,
            r.idle_timeout == 600,
    {
        DatabaseConfig {
            url,
            max_connections: 10,
            min_connections: 1,
            connect_timeout: 30,
            idle_timeout: 600,
        }
    }
}

/// Row counts reported by the storage collaborator.
#[derive(Debug, Clone, Copy, PartialEq, Eq, Structural)]
pub struct DatabaseStats {
    pub total_strategies: u32,
    pub total_trades: u32,
    pub active_strategies: u32,
}

/// One table's name, defining statement and row count.
#[derive(Debug, Clone, PartialEq)]
pub struct TableInfo {
    pub name: String,
    pub sql: Option<String>,
    pub row_count: u32,
}

} // verus!
