//! Encodings, frame intervals and the kinds of video source.

use crate::text::clone_text;
use crate::video::video_source_local::{VideoSourceLocal, VideoSourceLocalView};
use vstd::prelude::*;

verus! {

/// How the frames of a source are encoded.
#[derive(Clone, Copy, Debug, PartialEq, Eq, Structural)]
pub enum VideoEncodeType {
    Unknown,
    H265,
    H264,
    Mjpg,
    Yuyv,
}

/// The time between two frames, as a fraction of a second.
#[derive(Clone, Copy, Debug, PartialEq, Eq, Structural)]
pub struct FrameInterval {
    pub numerator: u32,
    pub denominator: u32,
}

/// A source that the media engine itself provides.
#[derive(Debug, PartialEq, Eq)]
pub struct VideoSourceGst {
    pub name: String,
}

/// A source that only passes on a stream made elsewhere.
#[derive(Debug, PartialEq, Eq)]
pub struct VideoSourceRedirect {
    pub name: String,
}

/// A video source, by kind.
#[derive(Debug, PartialEq, Eq)]
pub enum VideoSourceType {
    Gst(VideoSourceGst),
    Local(VideoSourceLocal),
    Redirect(VideoSourceRedirect),
}

/// The mathematical value of a video source.
pub enum VideoSourceTypeView {
    Gst(Seq<char>),
    Local(VideoSourceLocalView),
    Redirect(Seq<char>),
}

impl View for VideoSourceType {
    type V = VideoSourceTypeView;

    open spec fn view(&self) -> VideoSourceTypeView {
        match self {
            VideoSourceType::Gst(source) => VideoSourceTypeView::Gst(source.name@),
            VideoSourceType::Local(source) => VideoSourceTypeView::Local(source@),
            VideoSourceType::Redirect(source) => VideoSourceTypeView::Redirect(source.name@),
        }
    }
}

impl VideoSourceTypeView {
    /// The device that a local source captures from; other kinds own none.
    pub open spec fn device_path(self) -> Option<Seq<char>> {
        match self {
            VideoSourceTypeView::Local(source) => Some(source.device_path),
            _ => None,
        }
    }
}

impl Clone for VideoSourceType {
    fn clone(&self) -> (copy: Self)
        ensures
            copy@ == self@,
    {
        match self {
            VideoSourceType::Gst(source) => VideoSourceType::Gst(
                VideoSourceGst { name: clone_text(&source.name) },
            ),
            VideoSourceType::Local(source) => VideoSourceType::Local(source.clone()),
            VideoSourceType::Redirect(source) => VideoSourceType::Redirect(
                VideoSourceRedirect { name: clone_text(&source.name) },
            ),
        }
    }
}

} // verus!
