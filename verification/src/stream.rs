//! Streams: their identifiers, configuration, pipelines and registry.

pub mod id;
pub mod manager;
pub mod pipeline;
pub mod types;
