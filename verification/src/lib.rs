//! Building blocks for services: settings, tracing set-up, health reports, and
//! a structured log formatter that merges the attributes of the active spans
//! into each record.

pub mod attribute;
pub mod build_info;
pub mod core_feature;
pub mod database;
pub mod environment;
pub mod formatter;
pub mod health_status;
pub mod json;
pub mod lang;
pub mod postgres;
pub mod record;
pub mod redis;
pub mod span;
pub mod streaming;
pub mod text;
pub mod timeable;
pub mod timestamp;
pub mod trace;

pub use crate::attribute::{ArrayValue, Attribute, AttributeValue, FloatValue};
pub use crate::core_feature::{Core, CoreConfig};
pub use crate::database::DatabaseConfig;
pub use crate::environment::EnvironmentConfig;
pub use crate::formatter::{EventData, JsonFormatter};
pub use crate::health_status::{HealthStatus, HealthStatusReport};
pub use crate::lang::{Sensitive, SensitiveString};
pub use crate::postgres::PostgresConfig;
pub use crate::record::LogMessage;
pub use crate::redis::RedisConfig;
pub use crate::span::{SpanContext, SpanData, SpanEvent, SpanTelemetry};
pub use crate::streaming::{KafkaConfig, Message};
pub use crate::timestamp::Timestamp;
pub use crate::trace::{
    FormatLayer, MakeSpanWithContext, Tracing, TracingConfig, TracingFormat, UuidMakeRequestId,
};
pub use eyre::Result;
