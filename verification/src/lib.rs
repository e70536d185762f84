//! Capture pipelines for a network camera service: the text of a pipeline,
//! the life cycle of its runner, and the registry of running streams.

pub mod cli;
pub mod error;
pub mod master;
pub mod stream;
pub mod text;
pub mod video;
pub mod video_stream;
