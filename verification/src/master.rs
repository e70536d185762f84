//! Start-up: which of the streams that were loaded are handed to the
//! registry. Every source is validated by whoever can probe the hardware
//! before any pipeline is built for it; a stream whose source failed is put
//! aside, to be reported, and no pipeline is ever built for it.

use crate::video_stream::types::{VideoAndStreamInformation, VideoAndStreamInformationView};
use vstd::prelude::*;

verus! {

/// A stream as it was loaded, with what probing its video source again has
/// shown: whether the source can be used.
#[derive(Debug)]
pub struct LoadedStream {
    pub stream: VideoAndStreamInformation,
    pub valid: bool,
}

impl View for LoadedStream {
    type V = (VideoAndStreamInformationView, bool);

    open spec fn view(&self) -> (VideoAndStreamInformationView, bool) {
        (self.stream@, self.valid)
    }
}

/// The outcome of start-up: the streams to add, and the streams that are
/// put aside because their source is invalid or was not found. Both keep
/// the order in which the streams were loaded.
#[derive(Debug)]
pub struct Startup {
    pub accepted: Vec<VideoAndStreamInformation>,
    pub discarded: Vec<VideoAndStreamInformation>,
}

/// The value of each stream of a list.
pub open spec fn values(streams: Seq<VideoAndStreamInformation>) -> Seq<
    VideoAndStreamInformationView,
> {
    streams.map_values(|stream: VideoAndStreamInformation| stream@)
}

/// The value of each loaded stream of a list, with the validity of its
/// source.
pub open spec fn loaded_values(loaded: Seq<LoadedStream>) -> Seq<
    (VideoAndStreamInformationView, bool),
> {
    loaded.map_values(|stream: LoadedStream| stream@)
}

/// The streams whose source has the validity `valid`, in the order of the
/// list.
pub open spec fn chosen(
    loaded: Seq<(VideoAndStreamInformationView, bool)>,
    valid: bool,
) -> Seq<VideoAndStreamInformationView>
    decreases loaded.len(),
{
    if loaded.len() == 0 {
        Seq::empty()
    } else if loaded.last().1 == valid {
        chosen(loaded.drop_last(), valid).push(loaded.last().0)
    } else {
        chosen(loaded.drop_last(), valid)
    }
}

/// Each chosen stream stands in the list with the validity asked for: no
/// stream with an invalid source is among the accepted ones.
pub proof fn lemma_chosen_were_loaded(
    loaded: Seq<(VideoAndStreamInformationView, bool)>,
    valid: bool,
    i: int,
)
    requires
        0 <= i < chosen(loaded, valid).len(),
    ensures
        exists|j: int| 0 <= j < loaded.len() && #[trigger] loaded[j] == (chosen(loaded, valid)[i], valid),
    decreases loaded.len(),
{
    let rest = loaded.drop_last();
    let last = (loaded.len() - 1) as int;
    if loaded.last().1 == valid && i == chosen(rest, valid).len() {
        assert(loaded[last] == (chosen(loaded, valid)[i], valid));
    } else {
        lemma_chosen_were_loaded(rest, valid, i);
        let j = choose|j: int| 0 <= j < rest.len() && #[trigger] rest[j] == (chosen(rest, valid)[i], valid);
        assert(loaded[j] == rest[j]);
    }
}

/// Every loaded stream is either accepted or discarded.
pub proof fn lemma_chosen_lengths(loaded: Seq<(VideoAndStreamInformationView, bool)>)
    ensures
        chosen(loaded, true).len() + chosen(loaded, false).len() == loaded.len(),
    decreases loaded.len(),
{
    if loaded.len() > 0 {
        lemma_chosen_lengths(loaded.drop_last());
    }
}

/// Parts the loaded streams into those with a valid source, which are to be
/// added, and the others.
pub fn run(loaded: &Vec<LoadedStream>) -> (startup: Startup)
    ensures
        values(startup.accepted@) == chosen(loaded_values(loaded@), true),
        values(startup.discarded@) == chosen(loaded_values(loaded@), false),
{
    let mut accepted: Vec<VideoAndStreamInformation> = Vec::new();
    let mut discarded: Vec<VideoAndStreamInformation> = Vec::new();
    let mut i: usize = 0;
    assert(loaded_values(loaded@).subrange(0, 0) =~= Seq::empty());
    while i < loaded.len()
        invariant
            i <= loaded.len(),
            values(accepted@) =~= chosen(loaded_values(loaded@).subrange(0, i as int), true),
            values(discarded@) =~= chosen(loaded_values(loaded@).subrange(0, i as int), false),
        decreases loaded.len() - i,
    {
        let ghost before = loaded_values(loaded@).subrange(0, i as int);
        let ghost after = loaded_values(loaded@).subrange(0, i + 1);
        assert(after.drop_last() =~= before);
        assert(after.last() == loaded[i as int]@);
        let ghost accepted_before = accepted@;
        let ghost discarded_before = discarded@;
        let stream = loaded[i].stream.clone();
        if loaded[i].valid {
            accepted.push(stream);
            assert(values(accepted@) =~= values(accepted_before).push(stream@));
        } else {
            discarded.push(stream);
            assert(values(discarded@) =~= values(discarded_before).push(stream@));
        }
        i += 1;
    }
    assert(loaded_values(loaded@).subrange(0, i as int) =~= loaded_values(loaded@));
    Startup { accepted, discarded }
}

} // verus!
