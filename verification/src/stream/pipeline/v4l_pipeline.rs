//! The pipeline that captures a local V4L2 device and packs it for RTP.

use crate::error::{StreamError, StreamErrorView};
use crate::stream::pipeline::runner::PipelineRunner;
use crate::stream::pipeline::PipelineState;
use crate::stream::id::{hyphenated, lemma_hyphenated_injective, lemma_hyphenated_shape, StreamId};
use crate::stream::types::{CaptureConfiguration, VideoCaptureConfiguration};
use crate::text::{decimal, join, joined, push_decimal};
use crate::video::types::{VideoEncodeType, VideoSourceType, VideoSourceTypeView};
use crate::video_stream::types::{VideoAndStreamInformation, VideoAndStreamInformationView};
use vstd::prelude::*;

verus! {

/// What the name of every capability filter begins with.
pub const PIPELINE_FILTER_NAME: &'static str = "Filter";

/// What the name of every fan-out point begins with.
pub const PIPELINE_SINK_TEE_NAME: &'static str = "SinkTee";

/// The name of an element of the pipeline `id`: the prefix, a hyphen and the
/// identifier's text.
pub open spec fn tagged(prefix: Seq<char>, id: u128) -> Seq<char> {
    prefix + "-"@ + hyphenated(id)
}

/// The name of the capability filter of the pipeline `id`.
pub open spec fn filter_name(id: u128) -> Seq<char> {
    tagged(PIPELINE_FILTER_NAME@, id)
}

/// The name of the fan-out point of the pipeline `id`.
pub open spec fn sink_tee_name(id: u128) -> Seq<char> {
    tagged(PIPELINE_SINK_TEE_NAME@, id)
}

/// The encodings that have a pipeline.
pub open spec fn supported(encode: VideoEncodeType) -> bool {
    encode is H264 || encode is Yuyv || encode is Mjpg
}

/// The stage between the source and the capability filter, where the
/// encoding needs one. A JPEG stream gets none: a parser there spoils the
/// negotiation of capabilities.
pub open spec fn prelude_stage(encode: VideoEncodeType) -> Option<Seq<char>> {
    match encode {
        VideoEncodeType::H264 => Some("h264parse"@),
        VideoEncodeType::Yuyv => Some("videoconvert"@),
        _ => None,
    }
}

/// The media type that the capability filter asks for, with its fixed fields.
pub open spec fn caps_head(encode: VideoEncodeType) -> Seq<char> {
    match encode {
        VideoEncodeType::H264 => "video/x-h264,stream-format=avc,alignment=au"@,
        VideoEncodeType::Yuyv => "video/x-raw,format=I420"@,
        _ => "image/jpeg"@,
    }
}

/// The stage that packs the frames for transport, with payload type 96.
pub open spec fn payloader_stage(encode: VideoEncodeType) -> Seq<char> {
    match encode {
        VideoEncodeType::H264 => "rtph264pay aggregate-mode=zero-latency config-interval=10 pt=96"@,
        VideoEncodeType::Yuyv => "rtpvrawpay pt=96"@,
        _ => "rtpjpegpay pt=96"@,
    }
}

/// The stage that reads the device.
pub open spec fn source_stage(device: Seq<char>) -> Seq<char> {
    "v4l2src device="@ + device + " do-timestamp=false"@
}

/// The capabilities that the filter enforces: media type, picture size and
/// frame rate. The frame rate is the inverse of the frame interval.
pub open spec fn caps(configuration: VideoCaptureConfiguration) -> Seq<char> {
    caps_head(configuration.encode) + ",width="@ + decimal(configuration.width as nat)
        + ",height="@ + decimal(configuration.height as nat) + ",framerate="@ + decimal(
        configuration.frame_interval.denominator as nat,
    ) + "/"@ + decimal(configuration.frame_interval.numerator as nat)
}

/// The capability filter, named after the pipeline.
pub open spec fn filter_stage(id: u128, configuration: VideoCaptureConfiguration) -> Seq<char> {
    "capsfilter name="@ + filter_name(id) + " caps="@ + caps(configuration)
}

/// The fan-out point, named after the pipeline. It tolerates branches that
/// are not linked, so that sinks can come and go while the graph runs.
pub open spec fn tee_stage(id: u128) -> Seq<char> {
    "tee name="@ + sink_tee_name(id) + " allow-not-linked=true"@
}

/// The stages of the pipeline, from the source to the fan-out point.
pub open spec fn stages(
    id: u128,
    device: Seq<char>,
    configuration: VideoCaptureConfiguration,
) -> Seq<Seq<char>> {
    match prelude_stage(configuration.encode) {
        Some(prelude) => seq![
            source_stage(device),
            prelude,
            filter_stage(id, configuration),
            payloader_stage(configuration.encode),
            tee_stage(id),
        ],
        None => seq![
            source_stage(device),
            filter_stage(id, configuration),
            payloader_stage(configuration.encode),
            tee_stage(id),
        ],
    }
}

/// The text that the media engine is given for the pipeline `id`.
pub open spec fn description(
    id: u128,
    device: Seq<char>,
    configuration: VideoCaptureConfiguration,
) -> Seq<char> {
    joined(stages(id, device, configuration), " ! "@)
}

/// What building the pipeline `id` from `information` gives: the text for
/// the media engine, or the reason why there is none. The configuration is
/// looked at first, then the source, then the encoding.
pub open spec fn built(id: u128, information: VideoAndStreamInformationView) -> Result<
    Seq<char>,
    StreamErrorView,
> {
    match information.stream_information.configuration {
        CaptureConfiguration::Video(configuration) => match information.video_source {
            VideoSourceTypeView::Local(source) => if supported(configuration.encode) {
                Ok(description(id, source.device_path, configuration))
            } else {
                Err(StreamErrorView::Unsupported)
            },
            _ => Err(StreamErrorView::UnsupportedSource),
        },
        _ => Err(StreamErrorView::UnsupportedConfiguration),
    }
}

/// `text` starts with `prefix`.
pub open spec fn begins_with(text: Seq<char>, prefix: Seq<char>) -> bool {
    prefix.len() <= text.len() && text.subrange(0, prefix.len() as int) == prefix
}

/// How a stage starts that is an element of the kind `factory` with the name
/// `name`.
pub open spec fn named_element(factory: Seq<char>, name: Seq<char>) -> Seq<char> {
    factory + " name="@ + name + " "@
}

/// Among `stages` there is one element of the kind `factory`, no more, and
/// its name is `name`.
pub open spec fn exactly_one(stages: Seq<Seq<char>>, factory: Seq<char>, name: Seq<char>) -> bool {
    exists|i: int|
        0 <= i < stages.len() && begins_with(#[trigger] stages[i], named_element(factory, name))
            && forall|j: int|
            0 <= j < stages.len() && j != i ==> !begins_with(
                #[trigger] stages[j],
                factory + " "@,
            )
}

proof fn lemma_tagged_injective(prefix: Seq<char>, a: u128, b: u128)
    requires
        tagged(prefix, a) == tagged(prefix, b),
    ensures
        a == b,
{
    let head = prefix + "-"@;
    assert(hyphenated(a) =~= tagged(prefix, a).subrange(
        head.len() as int,
        tagged(prefix, a).len() as int,
    ));
    assert(hyphenated(b) =~= tagged(prefix, b).subrange(
        head.len() as int,
        tagged(prefix, b).len() as int,
    ));
    lemma_hyphenated_injective(a, b);
}

/// The names of the elements of two different pipelines never collide, and
/// no filter has the name of a fan-out point.
pub proof fn lemma_names_never_collide(a: u128, b: u128)
    ensures
        a != b ==> filter_name(a) != filter_name(b),
        a != b ==> sink_tee_name(a) != sink_tee_name(b),
        filter_name(a) != sink_tee_name(b),
{
    if filter_name(a) == filter_name(b) {
        lemma_tagged_injective(PIPELINE_FILTER_NAME@, a, b);
    }
    if sink_tee_name(a) == sink_tee_name(b) {
        lemma_tagged_injective(PIPELINE_SINK_TEE_NAME@, a, b);
    }
    reveal_strlit("Filter");
    reveal_strlit("SinkTee");
    reveal_strlit("-");
    lemma_hyphenated_shape(a);
    lemma_hyphenated_shape(b);
    assert(filter_name(a).len() == 43);
    assert(sink_tee_name(b).len() == 44);
}

/// Every pipeline holds exactly one capability filter and exactly one
/// fan-out point, each named after the pipeline's identifier, whatever the
/// device and the capture configuration are.
pub proof fn lemma_one_filter_one_tee(
    id: u128,
    device: Seq<char>,
    configuration: VideoCaptureConfiguration,
)
    requires
        supported(configuration.encode),
    ensures
        exactly_one(stages(id, device, configuration), "capsfilter"@, filter_name(id)),
        exactly_one(stages(id, device, configuration), "tee"@, sink_tee_name(id)),
{
    reveal_strlit("capsfilter");
    reveal_strlit("tee");
    reveal_strlit(" ");
    reveal_strlit(" name=");
    reveal_strlit("capsfilter name=");
    reveal_strlit("tee name=");
    reveal_strlit(" caps=");
    reveal_strlit(" allow-not-linked=true");
    reveal_strlit("v4l2src device=");
    reveal_strlit("h264parse");
    reveal_strlit("videoconvert");
    reveal_strlit("rtph264pay aggregate-mode=zero-latency config-interval=10 pt=96");
    reveal_strlit("rtpvrawpay pt=96");
    reveal_strlit("rtpjpegpay pt=96");
    let all = stages(id, device, configuration);
    let source = source_stage(device);
    let filter = filter_stage(id, configuration);
    let payloader = payloader_stage(configuration.encode);
    let tee = tee_stage(id);
    let filter_start = named_element("capsfilter"@, filter_name(id));
    let tee_start = named_element("tee"@, sink_tee_name(id));
    assert(source[0] == 'v');
    assert(payloader[0] == 'r');
    assert(filter[0] == 'c');
    assert(tee[0] == 't');
    assert(("capsfilter"@ + " "@)[0] == 'c');
    assert(("tee"@ + " "@)[0] == 't');
    assert(filter.subrange(0, filter_start.len() as int) =~= filter_start);
    assert(tee.subrange(0, tee_start.len() as int) =~= tee_start);
    assert(forall|text: Seq<char>, prefix: Seq<char>|
        #![trigger begins_with(text, prefix)]
        begins_with(text, prefix) && prefix.len() > 0 ==> text[0] == text.subrange(
            0,
            prefix.len() as int,
        )[0] && text[0] == prefix[0]);
    match prelude_stage(configuration.encode) {
        Some(prelude) => {
            assert(prelude[0] == 'h' || prelude[0] == 'v');
            assert(all[2] == filter && begins_with(all[2], filter_start));
            assert(all[4] == tee && begins_with(all[4], tee_start));
        },
        None => {
            assert(all[1] == filter && begins_with(all[1], filter_start));
            assert(all[3] == tee && begins_with(all[3], tee_start));
        },
    }
}

/// The fixed parts of the pipeline of one encoding.
pub struct Template {
    pub prelude: Option<&'static str>,
    pub caps: &'static str,
    pub payloader: &'static str,
}

impl Template {
    /// The template holds the fixed parts that belong to `encode`.
    pub open spec fn matches_encode(&self, encode: VideoEncodeType) -> bool {
        &&& match self.prelude {
            Some(text) => prelude_stage(encode) == Some(text@),
            None => prelude_stage(encode) is None,
        }
        &&& self.caps@ == caps_head(encode)
        &&& self.payloader@ == payloader_stage(encode)
    }

    /// The template of an encoding, for the encodings that have a pipeline.
    pub fn of(encode: VideoEncodeType) -> (template: Option<Template>)
        ensures
            template is Some <==> supported(encode),
            template matches Some(t) ==> t.matches_encode(encode),
    {
        match encode {
            VideoEncodeType::H264 => Some(
                Template {
                    prelude: Some("h264parse"),
                    caps: "video/x-h264,stream-format=avc,alignment=au",
                    payloader: "rtph264pay aggregate-mode=zero-latency config-interval=10 pt=96",
                },
            ),
            VideoEncodeType::Yuyv => Some(
                Template {
                    prelude: Some("videoconvert"),
                    caps: "video/x-raw,format=I420",
                    payloader: "rtpvrawpay pt=96",
                },
            ),
            VideoEncodeType::Mjpg => Some(
                Template { prelude: None, caps: "image/jpeg", payloader: "rtpjpegpay pt=96" },
            ),
            _ => None,
        }
    }
}

/// The name of an element of the pipeline `id`.
pub fn tagged_name(prefix: &str, id: StreamId) -> (name: String)
    ensures
        name@ == tagged(prefix@, id@),
{
    let mut name = String::new();
    name.append(prefix);
    name.append("-");
    let text = id.hyphenated();
    name.append(text.as_str());
    assert(name@ =~= tagged(prefix@, id@));
    name
}

fn source_text(device: &str) -> (stage: String)
    ensures
        stage@ == source_stage(device@),
{
    let mut stage = String::new();
    stage.append("v4l2src device=");
    stage.append(device);
    stage.append(" do-timestamp=false");
    assert(stage@ =~= source_stage(device@));
    stage
}

fn filter_text(id: StreamId, head: &str, configuration: &VideoCaptureConfiguration) -> (stage:
    String)
    requires
        head@ == caps_head(configuration.encode),
    ensures
        stage@ == filter_stage(id@, *configuration),
{
    let mut stage = String::new();
    stage.append("capsfilter name=");
    let name = tagged_name(PIPELINE_FILTER_NAME, id);
    stage.append(name.as_str());
    stage.append(" caps=");
    stage.append(head);
    stage.append(",width=");
    push_decimal(&mut stage, configuration.width);
    stage.append(",height=");
    push_decimal(&mut stage, configuration.height);
    stage.append(",framerate=");
    push_decimal(&mut stage, configuration.frame_interval.denominator);
    stage.append("/");
    push_decimal(&mut stage, configuration.frame_interval.numerator);
    assert(stage@ =~= filter_stage(id@, *configuration));
    stage
}

fn tee_text(id: StreamId) -> (stage: String)
    ensures
        stage@ == tee_stage(id@),
{
    let mut stage = String::new();
    stage.append("tee name=");
    let name = tagged_name(PIPELINE_SINK_TEE_NAME, id);
    stage.append(name.as_str());
    stage.append(" allow-not-linked=true");
    assert(stage@ =~= tee_stage(id@));
    stage
}

/// A pipeline that captures a local V4L2 device.
#[derive(Debug)]
pub struct V4lPipeline {
    pub state: PipelineState,
}

impl V4lPipeline {
    /// Whether the pipeline runs and its graph can be reached.
    pub fn is_running(&self, graph_reachable: bool) -> (running: bool)
        ensures
            running == (self.state.pipeline_runner@ is Running && graph_reachable),
    {
        self.state.pipeline_runner.is_running(graph_reachable)
    }

    /// Takes the verdict of the media engine on the text of the pipeline
    /// `pipeline_id`. A text that the engine accepted gives the pipeline,
    /// built and not started yet; a text that it refused gives the error
    /// that carries the text.
    pub fn constructed(pipeline_id: StreamId, description: String, accepted: bool) -> (result:
        Result<V4lPipeline, StreamError>)
        ensures
            match result {
                Ok(pipeline) => {
                    &&& accepted
                    &&& pipeline.state.pipeline_id == pipeline_id
                    &&& pipeline.state.pipeline_runner@ is Constructed
                },
                Err(error) => !accepted && error@ == StreamErrorView::ConstructionError(
                    description@,
                ),
            },
    {
        if accepted {
            Ok(
                V4lPipeline {
                    state: PipelineState { pipeline_id, pipeline_runner: PipelineRunner::new() },
                },
            )
        } else {
            Err(StreamError::ConstructionError(description))
        }
    }

    /// Builds the text of the pipeline `pipeline_id` for the media engine.
    /// Only a video capture of a local device in H264, YUYV or MJPG has one.
    pub fn try_new(
        pipeline_id: StreamId,
        video_and_stream_information: &VideoAndStreamInformation,
    ) -> (result: Result<String, StreamError>)
        ensures
            match result {
                Ok(text) => built(pipeline_id@, video_and_stream_information@) == Ok::<
                    Seq<char>,
                    StreamErrorView,
                >(text@),
                Err(error) => built(pipeline_id@, video_and_stream_information@) == Err::<
                    Seq<char>,
                    StreamErrorView,
                >(error@),
            },
    {
        let configuration = match &video_and_stream_information.stream_information.configuration {
            CaptureConfiguration::Video(configuration) => configuration,
            _ => {
                return Err(StreamError::UnsupportedConfiguration);
            },
        };
        let video_source = match &video_and_stream_information.video_source {
            VideoSourceType::Local(source) => source,
            _ => {
                return Err(StreamError::UnsupportedSource);
            },
        };
        let template = match Template::of(configuration.encode) {
            Some(template) => template,
            None => {
                return Err(StreamError::Unsupported);
            },
        };
        let mut stages: Vec<String> = Vec::new();
        stages.push(source_text(video_source.device_path.as_str()));
        match template.prelude {
            Some(prelude) => {
                stages.push(prelude.to_owned());
            },
            None => {},
        }
        stages.push(filter_text(pipeline_id, template.caps, configuration));
        stages.push(template.payloader.to_owned());
        stages.push(tee_text(pipeline_id));
        assert(stages.deep_view() =~= self::stages(
            pipeline_id@,
            video_source.device_path@,
            *configuration,
        ));
        Ok(join(&stages, " ! "))
    }
}

} // verus!
