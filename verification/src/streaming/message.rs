//! The message a streaming client publishes.

use std::collections::HashMap;
use vstd::prelude::*;

verus! {

/// A message for a topic, with the key it is partitioned by, its payload and
/// its headers.
#[derive(Debug, Clone, PartialEq, Eq)]
pub struct Message {
    pub topic: String,
    pub key: String,
    pub payload: String,
    pub headers: HashMap<String, String>,
}

} // verus!
