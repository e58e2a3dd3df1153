//! Settings every service shares.

use vstd::prelude::*;

verus! {

/// The core settings.
#[derive(Debug, Clone)]
pub struct CoreConfig {
    /// Whether colored output is switched off.
    pub no_color: bool,
}

/// The core feature of a service: it installs what reports errors in color.
pub struct Core;

impl Core {
    /// Whether the colored error reports are to be installed: unless color is
    /// switched off.
    pub fn installs_color(config: &CoreConfig) -> (install: bool)
        ensures
            install == !config.no_color,
    {
        !config.no_color
    }
}

} // verus!
