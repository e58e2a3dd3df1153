//! Publishing messages to a broker: the settings of the client and the message
//! it sends.

pub mod kafka_client;
pub mod kafka_config;
pub mod message;

pub use kafka_config::KafkaConfig;
pub use message::Message;
