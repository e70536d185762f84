//! The ways in which building or managing a stream can fail.

use vstd::prelude::*;

verus! {

/// Why a request was refused.
#[derive(Debug, PartialEq, Eq)]
pub enum StreamError {
    /// The capture configuration is not a video capture.
    UnsupportedConfiguration,
    /// The video source is not a local capture device.
    UnsupportedSource,
    /// The encoding has no pipeline.
    Unsupported,
    /// The media engine refused the pipeline; the text is what it was given.
    ConstructionError(String),
    /// A registered stream already owns the capture device.
    DeviceBusy,
    /// No stream is registered under the identifier.
    NotFound,
    /// The media engine did not finish a start or a stop in time.
    Timeout,
}

/// The mathematical value of an `StreamError`.
pub enum StreamErrorView {
    UnsupportedConfiguration,
    UnsupportedSource,
    Unsupported,
    ConstructionError(Seq<char>),
    DeviceBusy,
    NotFound,
    Timeout,
}

impl View for StreamError {
    type V = StreamErrorView;

    open spec fn view(&self) -> StreamErrorView {
        match self {
            StreamError::UnsupportedConfiguration => StreamErrorView::UnsupportedConfiguration,
            StreamError::UnsupportedSource => StreamErrorView::UnsupportedSource,
            StreamError::Unsupported => StreamErrorView::Unsupported,
            StreamError::ConstructionError(text) => StreamErrorView::ConstructionError(text@),
            StreamError::DeviceBusy => StreamErrorView::DeviceBusy,
            StreamError::NotFound => StreamErrorView::NotFound,
            StreamError::Timeout => StreamErrorView::Timeout,
        }
    }
}

} // verus!
