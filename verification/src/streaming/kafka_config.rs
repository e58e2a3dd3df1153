//! The settings of the Kafka client.

use crate::lang::Sensitive;
use vstd::prelude::*;

verus! {

/// The settings of the Kafka client. Key, certificate and certificate
/// authority are PEM texts in base64; TLS is used where all three are given.
#[derive(Clone)]
pub struct KafkaConfig {
    pub kafka_url: String,
    pub kafka_health_check_topic: String,
    pub kafka_key: Option<Sensitive<String>>,
    pub kafka_cert: Option<Sensitive<String>>,
    pub kafka_ca: Option<Sensitive<String>>,
}

} // verus!
