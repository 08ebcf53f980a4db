//! Partition selection and message preparation for a Kafka producer.
pub mod murmur2;
pub mod config;
pub mod text;
pub mod broker;
pub mod partition;
pub mod producer;
pub mod laws;
pub mod tls;
