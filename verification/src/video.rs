//! Video sources and the formats they deliver.

pub mod types;
pub mod video_source_local;
