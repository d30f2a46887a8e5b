//! Ingestion pipeline for a live order-book feed: the wire model, the feed
//! protocol, the classification of failures and the fan-out to storage sinks.

pub mod data_model;
pub mod consumer;
pub mod config;
pub mod codec;
pub mod producer;
pub mod redis_consumer;
pub mod mongodb_consumer;
