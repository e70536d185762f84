//! The registry of running streams. It hands out identifiers, keeps every
//! capture device with one stream at most, and holds a stream only while
//! its graph has been built and started.
//!
//! The registry decides and the media engine acts. To add a stream, ask
//! `plan` for the identifier and the pipeline text, let the engine build and
//! start the graph, and hand its report to `add_and_start`.

use crate::error::{StreamError, StreamErrorView};
use crate::stream::id::StreamId;
use crate::stream::pipeline::runner::{
    after_signal,
    Activation,
    Notification,
    Release,
    RunnerState,
    Signal,
};
use crate::stream::pipeline::v4l_pipeline::{built, V4lPipeline};
use crate::stream::pipeline::Pipeline;
use crate::video::types::VideoSourceType;
use crate::video_stream::types::{VideoAndStreamInformation, VideoAndStreamInformationView};
use vstd::prelude::*;

verus! {

/// What the media engine made of a pipeline text that it was asked to build
/// and start.
#[derive(Clone, Copy, Debug, PartialEq, Eq, Structural)]
pub enum EngineReport {
    /// The graph was built and reached its active state.
    Started,
    /// The engine refused the text or the graph made from it.
    Rejected,
    /// The graph did not reach its active state in time.
    TimedOut,
}

/// How a registered stream is doing.
#[derive(Clone, Copy, Debug, PartialEq, Eq, Structural)]
pub enum Status {
    Running,
    Degraded,
    Stopped,
}

/// The status that stands for a runner's state.
pub open spec fn status_of(state: RunnerState) -> Status {
    match state {
        RunnerState::Running => Status::Running,
        RunnerState::Degraded => Status::Degraded,
        _ => Status::Stopped,
    }
}

/// A registered stream: what it was made from and the pipeline that serves
/// it.
#[derive(Debug)]
pub struct Stream {
    pub video_and_stream_information: VideoAndStreamInformation,
    pub pipeline: Pipeline,
}

/// The mathematical value of a registered stream.
pub struct StreamView {
    pub id: StreamId,
    pub information: VideoAndStreamInformationView,
    pub state: RunnerState,
}

impl View for Stream {
    type V = StreamView;

    open spec fn view(&self) -> StreamView {
        StreamView {
            id: self.pipeline.id(),
            information: self.video_and_stream_information@,
            state: self.pipeline.runner_state(),
        }
    }
}

/// One line of the list of streams.
#[derive(Debug)]
pub struct StreamStatus {
    pub id: StreamId,
    pub video_and_stream_information: VideoAndStreamInformation,
    pub status: Status,
}

/// A degradation that the registry took note of, for the holder of the
/// stream.
#[derive(Clone, Copy, Debug, PartialEq, Eq, Structural)]
pub struct Degradation {
    pub id: StreamId,
    pub notification: Notification,
}

/// The mathematical value of the registry: the streams in the order of
/// their registration, every identifier that a stream was ever registered
/// under, and the identifier that the next stream will get.
pub struct ManagerView {
    pub streams: Seq<StreamView>,
    pub issued: Set<StreamId>,
    pub next_id: StreamId,
}

/// A stream is registered under `id`.
pub open spec fn holds(streams: Seq<StreamView>, id: StreamId) -> bool {
    exists|i: int| 0 <= i < streams.len() && (#[trigger] streams[i]).id == id
}

/// Where the stream `id` stands in the registry.
pub open spec fn place(streams: Seq<StreamView>, id: StreamId) -> int {
    choose|i: int| 0 <= i < streams.len() && (#[trigger] streams[i]).id == id
}

/// A registered stream owns the device that `information` asks for.
pub open spec fn device_busy(
    streams: Seq<StreamView>,
    information: VideoAndStreamInformationView,
) -> bool {
    information.device_path() is Some && exists|i: int|
        0 <= i < streams.len() && (#[trigger] streams[i]).information.device_path()
            == information.device_path()
}

/// What is decided before the media engine is asked: a busy device is
/// refused at once; otherwise the pipeline text is built, or refused.
pub open spec fn planned(
    streams: Seq<StreamView>,
    id: StreamId,
    information: VideoAndStreamInformationView,
) -> Result<Seq<char>, StreamErrorView> {
    if device_busy(streams, information) {
        Err(StreamErrorView::DeviceBusy)
    } else {
        built(id@, information)
    }
}

/// What an addition comes to: the stream to register, running, or the
/// reason why none is registered.
pub open spec fn admission(
    streams: Seq<StreamView>,
    id: StreamId,
    information: VideoAndStreamInformationView,
    report: EngineReport,
) -> Result<StreamView, StreamErrorView> {
    match planned(streams, id, information) {
        Err(error) => Err(error),
        Ok(text) => match report {
            EngineReport::Started => Ok(
                StreamView { id, information, state: RunnerState::Running },
            ),
            EngineReport::Rejected => Err(StreamErrorView::ConstructionError(text)),
            EngineReport::TimedOut => Err(StreamErrorView::Timeout),
        },
    }
}

/// The registered streams after an addition.
pub open spec fn registered_after(
    streams: Seq<StreamView>,
    id: StreamId,
    information: VideoAndStreamInformationView,
    report: EngineReport,
) -> Seq<StreamView> {
    match admission(streams, id, information, report) {
        Ok(stream) => streams.push(stream),
        Err(_) => streams,
    }
}

/// What holds of every registry: no two streams share an identifier or a
/// capture device, every stream is running or degraded, the identifier of
/// every stream was issued, and the next identifier was not.
pub open spec fn well_formed(view: ManagerView) -> bool {
    &&& forall|i: int, j: int|
        #![trigger view.streams[i], view.streams[j]]
        0 <= i < j < view.streams.len() ==> view.streams[i].id != view.streams[j].id
    &&& forall|i: int, j: int|
        #![trigger view.streams[i], view.streams[j]]
        0 <= i < j < view.streams.len() && view.streams[i].information.device_path() is Some
            ==> view.streams[i].information.device_path()
            != view.streams[j].information.device_path()
    &&& forall|i: int|
        0 <= i < view.streams.len() ==> {
            &&& (#[trigger] view.streams[i]).state is Running || view.streams[i].state is Degraded
            &&& view.issued.contains(view.streams[i].id)
        }
    &&& !view.issued.contains(view.next_id)
}

/// Where the engine did not start the graph, nothing is registered.
pub proof fn lemma_failure_registers_nothing(
    streams: Seq<StreamView>,
    id: StreamId,
    information: VideoAndStreamInformationView,
    report: EngineReport,
)
    requires
        !(report is Started),
    ensures
        admission(streams, id, information, report) is Err,
        registered_after(streams, id, information, report) == streams,
{
}

/// After a stream was added, a second addition that asks for the same
/// capture device is refused as busy, and the registry keeps the first
/// stream only.
pub proof fn lemma_second_addition_is_busy(
    streams: Seq<StreamView>,
    first_id: StreamId,
    first: VideoAndStreamInformationView,
    first_report: EngineReport,
    second_id: StreamId,
    second: VideoAndStreamInformationView,
    second_report: EngineReport,
)
    requires
        admission(streams, first_id, first, first_report) is Ok,
        second.device_path() == first.device_path(),
    ensures
        admission(
            registered_after(streams, first_id, first, first_report),
            second_id,
            second,
            second_report,
        ) == Err::<StreamView, StreamErrorView>(StreamErrorView::DeviceBusy),
        registered_after(
            registered_after(streams, first_id, first, first_report),
            second_id,
            second,
            second_report,
        ) == registered_after(streams, first_id, first, first_report),
{
    let after = registered_after(streams, first_id, first, first_report);
    let entry = admission(streams, first_id, first, first_report)->Ok_0;
    assert(after[streams.len() as int] == entry);
    assert(first.device_path() is Some);
    assert(device_busy(after, second));
}

/// In a well-formed registry a stream stands where its identifier is found.
pub proof fn lemma_place(streams: Seq<StreamView>, id: StreamId, i: int)
    requires
        forall|a: int, b: int|
            0 <= a < b < streams.len() ==> (#[trigger] streams[a]).id != (#[trigger] streams[b]).id,
        0 <= i < streams.len(),
        streams[i].id == id,
    ensures
        holds(streams, id),
        place(streams, id) == i,
{
    let p = place(streams, id);
    if p < i {
        assert(streams[p].id != streams[i].id);
    } else if i < p {
        assert(streams[i].id != streams[p].id);
    }
}

/// How many identifiers there are.
pub open spec fn id_space() -> int {
    0x1_0000_0000_0000_0000_0000_0000_0000_0000int
}

/// The identifier that the `count`-th probe from `start` tries: the values
/// follow one another and wrap round after the greatest.
pub open spec fn probe(start: u128, count: nat) -> StreamId {
    StreamId { value: ((start + count) % id_space()) as u128 }
}

/// If each of the first `count` probes is used, at least `count`
/// identifiers are used.
proof fn lemma_probes_bounded(used: Set<StreamId>, start: u128, count: nat)
    requires
        used.finite(),
        count <= id_space(),
        forall|k: nat| k < count ==> used.contains(#[trigger] probe(start, k)),
    ensures
        count <= used.len(),
    decreases count,
{
    if count > 0 {
        let last = probe(start, (count - 1) as nat);
        let rest = used.remove(last);
        assert forall|k: nat| k < count - 1 implies rest.contains(#[trigger] probe(start, k)) by {
            assert(used.contains(probe(start, k)));
            assert(probe(start, k).value != last.value);
        }
        lemma_probes_bounded(rest, start, (count - 1) as nat);
    }
}

fn contains(used: &Vec<StreamId>, id: StreamId) -> (found: bool)
    ensures
        found == used@.contains(id),
{
    let mut i: usize = 0;
    while i < used.len()
        invariant
            i <= used.len(),
            forall|j: int| 0 <= j < i ==> used[j] != id,
        decreases used.len() - i,
    {
        if used[i].value == id.value {
            return true;
        }
        i += 1;
    }
    false
}

/// The first identifier from `candidate` on that is not among `used`.
fn fresh_from(candidate: StreamId, used: &Vec<StreamId>) -> (id: StreamId)
    ensures
        !used@.contains(id),
{
    let mut value = candidate.value;
    let mut tries: usize = 0;
    loop
        invariant
            tries <= used.len(),
            value == probe(candidate.value, tries as nat).value,
            forall|k: nat| k < tries ==> used@.to_set().contains(#[trigger] probe(candidate.value, k)),
        decreases used.len() - tries,
    {
        if !contains(used, StreamId { value }) {
            return StreamId { value };
        }
        proof {
            used@.lemma_cardinality_of_set();
            vstd::seq_lib::seq_to_set_is_finite(used@);
            assert forall|k: nat| k < tries + 1 implies used@.to_set().contains(
                #[trigger] probe(candidate.value, k),
            ) by {
                if k == tries {
                    assert(used@.contains(probe(candidate.value, k)));
                }
            }
            lemma_probes_bounded(used@.to_set(), candidate.value, (tries + 1) as nat);
        }
        value = if value == u128::MAX {
            0
        } else {
            value + 1
        };
        tries += 1;
    }
}

/// The registry of streams.
#[derive(Debug)]
pub struct Manager {
    streams: Vec<Stream>,
    issued: Vec<StreamId>,
    next_id: StreamId,
}

impl View for Manager {
    type V = ManagerView;

    closed spec fn view(&self) -> ManagerView {
        ManagerView {
            streams: self.streams@.map_values(|stream: Stream| stream@),
            issued: self.issued@.to_set(),
            next_id: self.next_id,
        }
    }
}

impl Manager {
    /// The registry is well formed.
    pub open spec fn wf(&self) -> bool {
        well_formed(self@)
    }

    /// An empty registry.
    pub fn new() -> (manager: Manager)
        ensures
            manager.wf(),
            manager@.streams.len() == 0,
            manager@.issued == Set::<StreamId>::empty(),
    {
        let manager = Manager {
            streams: Vec::new(),
            issued: Vec::new(),
            next_id: StreamId::random(),
        };
        assert(manager@.issued =~= Set::<StreamId>::empty());
        manager
    }

    /// The number of registered streams.
    pub fn len(&self) -> (count: usize)
        ensures
            count == self@.streams.len(),
    {
        self.streams.len()
    }

    /// The identifier that the next stream will be registered under.
    pub fn next_id(&self) -> (id: StreamId)
        ensures
            id == self@.next_id,
    {
        self.next_id
    }

    fn find(&self, id: StreamId) -> (found: Option<usize>)
        ensures
            match found {
                Some(i) => i < self@.streams.len() && self@.streams[i as int].id == id,
                None => !holds(self@.streams, id),
            },
    {
        let mut i: usize = 0;
        while i < self.streams.len()
            invariant
                i <= self.streams.len(),
                forall|j: int| 0 <= j < i ==> (#[trigger] self@.streams[j]).id != id,
            decreases self.streams.len() - i,
        {
            if self.streams[i].pipeline.pipeline_id().value == id.value {
                return Some(i);
            }
            i += 1;
        }
        None
    }

    fn is_busy(&self, information: &VideoAndStreamInformation) -> (busy: bool)
        ensures
            busy == device_busy(self@.streams, information@),
    {
        match &information.video_source {
            VideoSourceType::Local(source) => {
                let mut i: usize = 0;
                while i < self.streams.len()
                    invariant
                        i <= self.streams.len(),
                        information.video_source == VideoSourceType::Local(*source),
                        forall|j: int|
                            0 <= j < i ==> (#[trigger] self@.streams[j]).information.device_path()
                                != information@.device_path(),
                    decreases self.streams.len() - i,
                {
                    match &self.streams[i].video_and_stream_information.video_source {
                        VideoSourceType::Local(other) => {
                            if other.device_path == source.device_path {
                                assert(self@.streams[i as int].information.device_path()
                                    == information@.device_path());
                                return true;
                            }
                        },
                        _ => {},
                    }
                    i += 1;
                }
                false
            },
            _ => false,
        }
    }

    /// What the media engine has to build for `information`, before
    /// `add_and_start` is called: the identifier that the stream will get
    /// and the pipeline text. Where the addition is refused whatever the
    /// engine reports, the reason comes back instead.
    pub fn plan(&self, information: &VideoAndStreamInformation) -> (result: Result<
        (StreamId, String),
        StreamError,
    >)
        requires
            self.wf(),
        ensures
            match result {
                Ok((id, text)) => id == self@.next_id && planned(
                    self@.streams,
                    self@.next_id,
                    information@,
                ) == Ok::<Seq<char>, StreamErrorView>(text@),
                Err(error) => planned(self@.streams, self@.next_id, information@) == Err::<
                    Seq<char>,
                    StreamErrorView,
                >(error@),
            },
    {
        if self.is_busy(information) {
            return Err(StreamError::DeviceBusy);
        }
        match V4lPipeline::try_new(self.next_id, information) {
            Ok(text) => Ok((self.next_id, text)),
            Err(error) => Err(error),
        }
    }

    /// Registers a stream for `information` under the next identifier, if
    /// its device is free, it has a pipeline, and the media engine reports
    /// that the graph was built and started. In every other case the
    /// registry stays as it was.
    pub fn add_and_start(
        &mut self,
        information: VideoAndStreamInformation,
        report: EngineReport,
    ) -> (result: Result<StreamId, StreamError>)
        requires
            old(self).wf(),
        ensures
            final(self).wf(),
            final(self)@.streams == registered_after(
                old(self)@.streams,
                old(self)@.next_id,
                information@,
                report,
            ),
            match result {
                Ok(id) => {
                    &&& admission(old(self)@.streams, old(self)@.next_id, information@, report) is Ok
                    &&& id == old(self)@.next_id
                    &&& !old(self)@.issued.contains(id)
                    &&& final(self)@.issued == old(self)@.issued.insert(id)
                },
                Err(error) => {
                    &&& admission(old(self)@.streams, old(self)@.next_id, information@, report)
                        == Err::<StreamView, StreamErrorView>(error@)
                    &&& final(self)@ == old(self)@
                },
            },
    {
        if self.is_busy(&information) {
            return Err(StreamError::DeviceBusy);
        }
        let id = self.next_id;
        let text = match V4lPipeline::try_new(id, &information) {
            Ok(text) => text,
            Err(error) => {
                return Err(error);
            },
        };
        let (accepted, activation) = match report {
            EngineReport::Rejected => (false, Activation::TimedOut),
            EngineReport::Started => (true, Activation::Active),
            EngineReport::TimedOut => (true, Activation::TimedOut),
        };
        let mut pipeline = match V4lPipeline::constructed(id, text, accepted) {
            Ok(pipeline) => pipeline,
            Err(error) => {
                return Err(error);
            },
        };
        match pipeline.state.pipeline_runner.start(activation) {
            Err(error) => {
                return Err(error);
            },
            Ok(()) => {},
        }
        let stream = Stream {
            video_and_stream_information: information,
            pipeline: Pipeline::V4l(pipeline),
        };
        let ghost entry = stream@;
        let ghost before = self@;
        self.streams.push(stream);
        self.issued.push(id);
        let candidate = StreamId::random();
        self.next_id = fresh_from(candidate, &self.issued);
        proof {
            assert(self@.streams =~= before.streams.push(entry));
            assert(self@.issued =~= before.issued.insert(id)) by {
                old(self).issued@.lemma_push_to_set_commute(id);
            }
            assert(!device_busy(before.streams, information@));
            assert(information@.device_path() is Some);
            assert forall|i: int, j: int|
                #![trigger self@.streams[i], self@.streams[j]]
                0 <= i < j < self@.streams.len() && self@.streams[i].information.device_path()
                    is Some implies self@.streams[i].information.device_path()
                != self@.streams[j].information.device_path() by {
                if j == before.streams.len() {
                    assert(before.streams[i].information.device_path()
                        != information@.device_path());
                }
            }
            assert forall|i: int, j: int|
                #![trigger self@.streams[i], self@.streams[j]]
                0 <= i < j < self@.streams.len() implies self@.streams[i].id
                != self@.streams[j].id by {
                if j == before.streams.len() {
                    assert(before.issued.contains(before.streams[i].id));
                }
            }
        }
        Ok(id)
    }

    /// Takes the stream `id` out of the registry, once its graph has been
    /// released. `release` says what came of releasing it; where that did
    /// not finish in time the stream stays registered as it was.
    pub fn remove(&mut self, id: StreamId, release: Release) -> (result: Result<(), StreamError>)
        requires
            old(self).wf(),
        ensures
            final(self).wf(),
            final(self)@.issued == old(self)@.issued,
            final(self)@.next_id == old(self)@.next_id,
            match result {
                Ok(()) => {
                    &&& holds(old(self)@.streams, id)
                    &&& release is Released
                    &&& final(self)@.streams == old(self)@.streams.remove(
                        place(old(self)@.streams, id),
                    )
                },
                Err(error) => {
                    &&& final(self)@ == old(self)@
                    &&& error@ == if holds(old(self)@.streams, id) {
                        StreamErrorView::Timeout
                    } else {
                        StreamErrorView::NotFound
                    }
                    &&& holds(old(self)@.streams, id) ==> release is TimedOut
                },
            },
    {
        let i = match self.find(id) {
            Some(i) => i,
            None => {
                return Err(StreamError::NotFound);
            },
        };
        let ghost before = self@;
        proof {
            lemma_place(before.streams, id, i as int);
        }
        let mut stream = self.streams.remove(i);
        let ghost entry = stream@;
        assert(entry == before.streams[i as int]);
        let stopped = match &mut stream.pipeline {
            Pipeline::V4l(pipeline) => pipeline.state.pipeline_runner.stop(release),
        };
        match stopped {
            Err(error) => {
                assert(stream@ == entry);
                self.streams.insert(i, stream);
                assert(self@.streams =~= before.streams);
                Err(error)
            },
            Ok(()) => {
                assert(self@.streams =~= before.streams.remove(i as int));
                Ok(())
            },
        }
    }

    /// How the stream `id` is doing.
    pub fn status(&self, id: StreamId) -> (result: Result<Status, StreamError>)
        requires
            self.wf(),
        ensures
            match result {
                Ok(status) => holds(self@.streams, id) && status == status_of(
                    self@.streams[place(self@.streams, id)].state,
                ),
                Err(error) => !holds(self@.streams, id) && error@ == StreamErrorView::NotFound,
            },
    {
        match self.find(id) {
            Some(i) => {
                proof {
                    lemma_place(self@.streams, id, i as int);
                }
                Ok(status_from(self.streams[i].pipeline.state()))
            },
            None => Err(StreamError::NotFound),
        }
    }

    /// The registered streams in the order of their registration, each with
    /// its identifier, what it was made from and how it is doing.
    pub fn list(&self) -> (lines: Vec<StreamStatus>)
        ensures
            lines.len() == self@.streams.len(),
            forall|i: int|
                0 <= i < lines.len() ==> {
                    &&& (#[trigger] lines[i]).id == self@.streams[i].id
                    &&& lines[i].video_and_stream_information@ == self@.streams[i].information
                    &&& lines[i].status == status_of(self@.streams[i].state)
                },
    {
        let mut lines: Vec<StreamStatus> = Vec::new();
        let mut i: usize = 0;
        while i < self.streams.len()
            invariant
                i <= self.streams.len(),
                lines.len() == i,
                forall|j: int|
                    0 <= j < i ==> {
                        &&& (#[trigger] lines[j]).id == self@.streams[j].id
                        &&& lines[j].video_and_stream_information@ == self@.streams[j].information
                        &&& lines[j].status == status_of(self@.streams[j].state)
                    },
            decreases self.streams.len() - i,
        {
            let stream = &self.streams[i];
            lines.push(
                StreamStatus {
                    id: stream.pipeline.pipeline_id(),
                    video_and_stream_information: stream.video_and_stream_information.clone(),
                    status: status_from(stream.pipeline.state()),
                },
            );
            i += 1;
        }
        lines
    }

    /// Takes a signal that the monitor of the stream `id` saw on its graph.
    /// A running stream degrades, and the degradation is handed out for the
    /// holder of the stream; a stream that is not running stays as it is.
    pub fn observe(&mut self, id: StreamId, signal: Signal) -> (result: Result<
        Option<Degradation>,
        StreamError,
    >)
        requires
            old(self).wf(),
        ensures
            final(self).wf(),
            final(self)@.issued == old(self)@.issued,
            final(self)@.next_id == old(self)@.next_id,
            match result {
                Ok(degradation) => {
                    let i = place(old(self)@.streams, id);
                    let was = old(self)@.streams[i];
                    &&& holds(old(self)@.streams, id)
                    &&& final(self)@.streams == old(self)@.streams.update(
                        i,
                        (StreamView { state: after_signal(was.state), ..was }),
                    )
                    &&& degradation == if was.state is Running {
                        Some((Degradation { id, notification: (Notification { signal }) }))
                    } else {
                        None
                    }
                },
                Err(error) => {
                    &&& !holds(old(self)@.streams, id)
                    &&& error@ == StreamErrorView::NotFound
                    &&& final(self)@ == old(self)@
                },
            },
    {
        let i = match self.find(id) {
            Some(i) => i,
            None => {
                return Err(StreamError::NotFound);
            },
        };
        let ghost before = self@;
        proof {
            lemma_place(before.streams, id, i as int);
        }
        let mut stream = self.streams.remove(i);
        let observed = match &mut stream.pipeline {
            Pipeline::V4l(pipeline) => pipeline.state.pipeline_runner.observe(signal),
        };
        let ghost entry = stream@;
        self.streams.insert(i, stream);
        proof {
            assert(self@.streams =~= before.streams.update(i as int, entry));
            assert(entry == StreamView {
                state: after_signal(before.streams[i as int].state),
                ..before.streams[i as int]
            });
        }
        match observed {
            Some(notification) => Ok(Some(Degradation { id, notification })),
            None => Ok(None),
        }
    }
}

/// The status that stands for a runner's state.
pub fn status_from(state: RunnerState) -> (status: Status)
    ensures
        status == status_of(state),
{
    match state {
        RunnerState::Running => Status::Running,
        RunnerState::Degraded => Status::Degraded,
        _ => Status::Stopped,
    }
}

} // verus!
