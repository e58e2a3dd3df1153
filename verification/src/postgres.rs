//! The settings of the Postgres connection pool.

use vstd::prelude::*;

verus! {

/// The settings of the Postgres connection pool.
#[derive(Debug, Clone)]
pub struct PostgresConfig {
    pub url: String,
    pub pool_max_connections: u32,
}

} // verus!
