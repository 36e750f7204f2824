//! Topology composition engine and delivery-acknowledgement protocol for an
//! observability data pipeline: a declarative component graph is validated
//! and ordered into a runnable topology, and per-batch delivery outcomes are
//! aggregated back to the originating source.

pub mod ack;
pub mod config;
pub mod databend;
pub mod decode;
pub mod diag;
pub mod event;
pub mod graph;
pub mod laws;
pub mod parse;
pub mod sqs;
pub mod text;
pub mod topology;
pub mod validate;
