//! How a stream captures its source and where it sends the result.

use crate::text::{clone_text, clone_texts};
use crate::video::types::{FrameInterval, VideoEncodeType};
use vstd::prelude::*;

verus! {

/// A video capture: picture size, frame interval and encoding.
#[derive(Clone, Copy, Debug, PartialEq, Eq, Structural)]
pub struct VideoCaptureConfiguration {
    pub encode: VideoEncodeType,
    pub height: u32,
    pub width: u32,
    pub frame_interval: FrameInterval,
}

/// A capture that only redirects a stream and has nothing to configure.
#[derive(Clone, Copy, Debug, PartialEq, Eq, Structural)]
pub struct RedirectCaptureConfiguration {}

/// How a source is captured, by kind.
#[derive(Clone, Copy, Debug, PartialEq, Eq, Structural)]
pub enum CaptureConfiguration {
    Video(VideoCaptureConfiguration),
    Redirect(RedirectCaptureConfiguration),
}

/// The capture configuration of a stream and the endpoints that it serves.
/// The endpoints are carried along and never read here.
#[derive(Debug, PartialEq, Eq)]
pub struct StreamInformation {
    pub endpoints: Vec<String>,
    pub configuration: CaptureConfiguration,
}

/// The mathematical value of a `StreamInformation`.
pub struct StreamInformationView {
    pub endpoints: Seq<Seq<char>>,
    pub configuration: CaptureConfiguration,
}

impl View for StreamInformation {
    type V = StreamInformationView;

    open spec fn view(&self) -> StreamInformationView {
        StreamInformationView {
            endpoints: self.endpoints.deep_view(),
            configuration: self.configuration,
        }
    }
}

impl Clone for StreamInformation {
    fn clone(&self) -> (copy: Self)
        ensures
            copy@ == self@,
    {
        StreamInformation {
            endpoints: clone_texts(&self.endpoints),
            configuration: self.configuration,
        }
    }
}

} // verus!
