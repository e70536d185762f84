//! What a stream is made from: a video source and the way to capture it.

pub mod types;
