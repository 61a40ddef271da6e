//! Settings for Kafka clients: reading them from a flat configuration
//! source, and turning them into the configuration that `rdkafka` creates a
//! consumer or a producer from.

pub mod client;
pub mod kafka;
pub mod number;
pub mod settings;
pub mod source;
pub mod text;

pub use kafka::{consumer, consumer_with_suffix, producer, ConsumerPlan, ContractError};
pub use settings::{
    Acks, ConsumerSettings, KafkaSettings, ProducerSettings, SecurityProtocol,
};
pub use source::{Field, SchemaError};
pub use text::vec_from_str;
