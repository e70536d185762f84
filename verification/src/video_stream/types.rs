//! The description from which a stream is built.

use crate::stream::types::{StreamInformation, StreamInformationView};
use crate::text::clone_text;
use crate::video::types::{VideoSourceType, VideoSourceTypeView};
use vstd::prelude::*;

verus! {

/// A named pairing of a video source with the way to capture and serve it.
#[derive(Debug, PartialEq, Eq)]
pub struct VideoAndStreamInformation {
    pub name: String,
    pub stream_information: StreamInformation,
    pub video_source: VideoSourceType,
}

/// The mathematical value of a `VideoAndStreamInformation`.
pub struct VideoAndStreamInformationView {
    pub name: Seq<char>,
    pub stream_information: StreamInformationView,
    pub video_source: VideoSourceTypeView,
}

impl View for VideoAndStreamInformation {
    type V = VideoAndStreamInformationView;

    open spec fn view(&self) -> VideoAndStreamInformationView {
        VideoAndStreamInformationView {
            name: self.name@,
            stream_information: self.stream_information@,
            video_source: self.video_source@,
        }
    }
}

impl VideoAndStreamInformationView {
    /// The device that the stream would own while it runs, if any.
    pub open spec fn device_path(self) -> Option<Seq<char>> {
        self.video_source.device_path()
    }
}

impl Clone for VideoAndStreamInformation {
    fn clone(&self) -> (copy: Self)
        ensures
            copy@ == self@,
    {
        VideoAndStreamInformation {
            name: clone_text(&self.name),
            stream_information: self.stream_information.clone(),
            video_source: self.video_source.clone(),
        }
    }
}

} // verus!
