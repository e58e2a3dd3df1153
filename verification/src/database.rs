//! The settings of the database connection pool.

use vstd::prelude::*;

verus! {

/// The settings of the database connection pool.
#[derive(Debug, Clone)]
pub struct DatabaseConfig {
    pub url: String,
    pub pool_max_connections: u32,
}

} // verus!
