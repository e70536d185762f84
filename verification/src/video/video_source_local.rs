//! Capture devices attached to this machine.

use crate::stream::types::VideoCaptureConfiguration;
use crate::text::clone_text;
use vstd::prelude::*;

verus! {

/// A local capture device: where it is found and what it can deliver. The
/// capabilities are filled in by whoever probes the hardware.
#[derive(Debug, PartialEq, Eq)]
pub struct VideoSourceLocal {
    pub name: String,
    pub device_path: String,
    pub capabilities: Vec<VideoCaptureConfiguration>,
}

/// The mathematical value of a local capture device.
pub struct VideoSourceLocalView {
    pub name: Seq<char>,
    pub device_path: Seq<char>,
    pub capabilities: Seq<VideoCaptureConfiguration>,
}

impl View for VideoSourceLocal {
    type V = VideoSourceLocalView;

    open spec fn view(&self) -> VideoSourceLocalView {
        VideoSourceLocalView {
            name: self.name@,
            device_path: self.device_path@,
            capabilities: self.capabilities@,
        }
    }
}

impl Clone for VideoSourceLocal {
    fn clone(&self) -> (copy: Self)
        ensures
            copy@ == self@,
    {
        let mut capabilities: Vec<VideoCaptureConfiguration> = Vec::new();
        let mut i: usize = 0;
        while i < self.capabilities.len()
            invariant
                i <= self.capabilities.len(),
                capabilities@ == self.capabilities@.subrange(0, i as int),
            decreases self.capabilities.len() - i,
        {
            capabilities.push(self.capabilities[i]);
            i += 1;
        }
        assert(self.capabilities@.subrange(0, i as int) =~= self.capabilities@);
        VideoSourceLocal {
            name: clone_text(&self.name),
            device_path: clone_text(&self.device_path),
            capabilities,
        }
    }
}

} // verus!
