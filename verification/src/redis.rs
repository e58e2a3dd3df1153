//! The settings of the Redis connection pool.

use crate::lang::Sensitive;
use vstd::prelude::*;

verus! {

/// The settings of the Redis connection pool. The URL may hold a password.
#[derive(Clone)]
pub struct RedisConfig {
    pub url: Sensitive<String>,
}

} // verus!
