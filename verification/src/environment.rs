//! The settings of a service.

use crate::core_feature::CoreConfig;
use crate::trace::TracingConfig;
use vstd::prelude::*;

verus! {

/// The settings of one service: those of every feature it runs.
#[derive(Debug, Clone)]
pub struct EnvironmentConfig {
    pub core: CoreConfig,
    pub tracing: TracingConfig,
}

} // verus!
