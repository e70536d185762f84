use mavlink_camera_manager::error::StreamError;
use mavlink_camera_manager::stream::id::StreamId;
use mavlink_camera_manager::stream::pipeline::v4l_pipeline::{
    tagged_name, Template, V4lPipeline, PIPELINE_FILTER_NAME, PIPELINE_SINK_TEE_NAME,
};
use mavlink_camera_manager::stream::types::{
    CaptureConfiguration, RedirectCaptureConfiguration, StreamInformation,
    VideoCaptureConfiguration,
};
use mavlink_camera_manager::text::{clone_texts, join, push_decimal};
use mavlink_camera_manager::video::types::{
    FrameInterval, VideoEncodeType, VideoSourceGst, VideoSourceRedirect, VideoSourceType,
};
use mavlink_camera_manager::video::video_source_local::VideoSourceLocal;
use mavlink_camera_manager::video_stream::types::VideoAndStreamInformation;

const ID: u128 = 0xa1a2a3a4_b1b2_c1c2_d1d2_d3d4d5d6d7d8;
const ID_TEXT: &str = "a1a2a3a4-b1b2-c1c2-d1d2-d3d4d5d6d7d8";

fn video(encode: VideoEncodeType, width: u32, height: u32, numerator: u32, denominator: u32) -> CaptureConfiguration {
    CaptureConfiguration::Video(VideoCaptureConfiguration {
        encode,
        height,
        width,
        frame_interval: FrameInterval { numerator, denominator },
    })
}

fn local(device_path: &str) -> VideoSourceType {
    VideoSourceType::Local(VideoSourceLocal {
        name: "Camera".to_string(),
        device_path: device_path.to_string(),
        capabilities: Vec::new(),
    })
}

fn information(video_source: VideoSourceType, configuration: CaptureConfiguration) -> VideoAndStreamInformation {
    VideoAndStreamInformation {
        name: "Stream".to_string(),
        stream_information: StreamInformation {
            endpoints: vec!["udp://0.0.0.0:5600".to_string()],
            configuration,
        },
        video_source,
    }
}

fn full_hd(encode: VideoEncodeType) -> VideoAndStreamInformation {
    information(local("/dev/video0"), video(encode, 1920, 1080, 30, 1))
}

#[test]
fn identifier_text_is_hyphenated_lower_hex() {
    assert_eq!(StreamId::from_u128(ID).hyphenated(), ID_TEXT);
    assert_eq!(StreamId::from_u128(ID).as_u128(), ID);
    assert_eq!(StreamId::from_u128(0).hyphenated(), "00000000-0000-0000-0000-000000000000");
    assert_eq!(StreamId::from_u128(u128::MAX).hyphenated(), "ffffffff-ffff-ffff-ffff-ffffffffffff");
    assert_eq!(
        StreamId::from_u128(0x0123456789abcdef_fedcba9876543210).hyphenated(),
        "01234567-89ab-cdef-fedc-ba9876543210"
    );
    assert_eq!(StreamId::from_u128(10).hyphenated(), "00000000-0000-0000-0000-00000000000a");
}

#[test]
fn random_identifiers_are_marked_as_version_4() {
    for _ in 0..64 {
        let id = StreamId::random();
        assert_eq!(
            id.as_u128() & 0x0000_0000_0000_f000_c000_0000_0000_0000,
            0x0000_0000_0000_4000_8000_0000_0000_0000
        );
        let text = id.hyphenated();
        assert_eq!(text.as_bytes()[14], b'4');
        assert!(b"89ab".contains(&text.as_bytes()[19]));
    }
}

#[test]
fn random_identifiers_have_the_common_form() {
    let text = StreamId::random().hyphenated();
    assert_eq!(text.len(), 36);
    for (i, c) in text.chars().enumerate() {
        if i == 8 || i == 13 || i == 18 || i == 23 {
            assert_eq!(c, '-');
        } else {
            assert!(c.is_ascii_digit() || ('a'..='f').contains(&c));
        }
    }
}

#[test]
fn element_names_carry_the_identifier() {
    let id = StreamId::from_u128(ID);
    assert_eq!(PIPELINE_FILTER_NAME, "Filter");
    assert_eq!(PIPELINE_SINK_TEE_NAME, "SinkTee");
    assert_eq!(tagged_name(PIPELINE_FILTER_NAME, id), format!("Filter-{}", ID_TEXT));
    assert_eq!(tagged_name(PIPELINE_SINK_TEE_NAME, id), format!("SinkTee-{}", ID_TEXT));
}

#[test]
fn element_names_of_two_streams_differ() {
    let a = StreamId::from_u128(1);
    let b = StreamId::from_u128(2);
    assert_ne!(tagged_name(PIPELINE_FILTER_NAME, a), tagged_name(PIPELINE_FILTER_NAME, b));
    assert_ne!(tagged_name(PIPELINE_SINK_TEE_NAME, a), tagged_name(PIPELINE_SINK_TEE_NAME, b));
    assert_ne!(tagged_name(PIPELINE_FILTER_NAME, a), tagged_name(PIPELINE_SINK_TEE_NAME, a));
    assert_ne!(tagged_name(PIPELINE_FILTER_NAME, a), tagged_name(PIPELINE_SINK_TEE_NAME, b));
}

#[test]
fn h264_description() {
    let text = V4lPipeline::try_new(StreamId::from_u128(ID), &full_hd(VideoEncodeType::H264)).unwrap();
    assert_eq!(
        text,
        format!(
            "v4l2src device=/dev/video0 do-timestamp=false ! h264parse ! capsfilter name=Filter-{id} caps=video/x-h264,stream-format=avc,alignment=au,width=1920,height=1080,framerate=1/30 ! rtph264pay aggregate-mode=zero-latency config-interval=10 pt=96 ! tee name=SinkTee-{id} allow-not-linked=true",
            id = ID_TEXT
        )
    );
}

#[test]
fn h264_description_holds_source_filter_and_payloader() {
    let text = V4lPipeline::try_new(StreamId::from_u128(ID), &full_hd(VideoEncodeType::H264)).unwrap();
    assert!(text.contains("v4l2src device=/dev/video0"));
    assert!(text.contains("width=1920,height=1080,framerate=1/30"));
    assert!(text.contains("config-interval=10"));
    assert!(text.contains("pt=96"));
}

#[test]
fn yuyv_description() {
    let text = V4lPipeline::try_new(
        StreamId::from_u128(ID),
        &information(local("/dev/video2"), video(VideoEncodeType::Yuyv, 640, 480, 1, 15)),
    )
    .unwrap();
    assert_eq!(
        text,
        format!(
            "v4l2src device=/dev/video2 do-timestamp=false ! videoconvert ! capsfilter name=Filter-{id} caps=video/x-raw,format=I420,width=640,height=480,framerate=15/1 ! rtpvrawpay pt=96 ! tee name=SinkTee-{id} allow-not-linked=true",
            id = ID_TEXT
        )
    );
}

#[test]
fn mjpg_description() {
    let text = V4lPipeline::try_new(StreamId::from_u128(ID), &full_hd(VideoEncodeType::Mjpg)).unwrap();
    assert_eq!(
        text,
        format!(
            "v4l2src device=/dev/video0 do-timestamp=false ! capsfilter name=Filter-{id} caps=image/jpeg,width=1920,height=1080,framerate=1/30 ! rtpjpegpay pt=96 ! tee name=SinkTee-{id} allow-not-linked=true",
            id = ID_TEXT
        )
    );
}

#[test]
fn mjpg_description_has_no_stage_before_the_filter() {
    let text = V4lPipeline::try_new(StreamId::from_u128(ID), &full_hd(VideoEncodeType::Mjpg)).unwrap();
    assert!(text.starts_with("v4l2src device=/dev/video0 do-timestamp=false ! capsfilter name=Filter-"));
    assert!(!text.contains("parse"));
    let h264 = V4lPipeline::try_new(StreamId::from_u128(ID), &full_hd(VideoEncodeType::H264)).unwrap();
    assert!(h264.starts_with("v4l2src device=/dev/video0 do-timestamp=false ! h264parse ! capsfilter name=Filter-"));
}

#[test]
fn each_description_names_one_filter_and_one_tee() {
    for encode in [VideoEncodeType::H264, VideoEncodeType::Yuyv, VideoEncodeType::Mjpg] {
        let text = V4lPipeline::try_new(StreamId::from_u128(ID), &full_hd(encode)).unwrap();
        let stages: Vec<&str> = text.split(" ! ").collect();
        let filter = format!("capsfilter name=Filter-{} ", ID_TEXT);
        let tee = format!("tee name=SinkTee-{} ", ID_TEXT);
        assert_eq!(stages.iter().filter(|stage| stage.starts_with("capsfilter ")).count(), 1);
        assert_eq!(stages.iter().filter(|stage| stage.starts_with(filter.as_str())).count(), 1);
        assert_eq!(stages.iter().filter(|stage| stage.starts_with("tee ")).count(), 1);
        assert_eq!(stages.iter().filter(|stage| stage.starts_with(tee.as_str())).count(), 1);
    }
}

#[test]
fn description_is_the_same_for_the_same_input() {
    let first = V4lPipeline::try_new(StreamId::from_u128(7), &full_hd(VideoEncodeType::H264));
    let second = V4lPipeline::try_new(StreamId::from_u128(7), &full_hd(VideoEncodeType::H264));
    assert_eq!(first, second);
}

#[test]
fn extreme_numbers_are_written_in_full() {
    let text = V4lPipeline::try_new(
        StreamId::from_u128(0),
        &information(local(""), video(VideoEncodeType::Mjpg, 0, u32::MAX, 0, 1000)),
    )
    .unwrap();
    assert_eq!(
        text,
        "v4l2src device= do-timestamp=false ! capsfilter name=Filter-00000000-0000-0000-0000-000000000000 caps=image/jpeg,width=0,height=4294967295,framerate=1000/0 ! rtpjpegpay pt=96 ! tee name=SinkTee-00000000-0000-0000-0000-000000000000 allow-not-linked=true"
    );
}

#[test]
fn redirect_configuration_is_unsupported() {
    let result = V4lPipeline::try_new(
        StreamId::from_u128(ID),
        &information(local("/dev/video0"), CaptureConfiguration::Redirect(RedirectCaptureConfiguration {})),
    );
    assert_eq!(result, Err(StreamError::UnsupportedConfiguration));
}

#[test]
fn configuration_is_looked_at_before_the_source() {
    let result = V4lPipeline::try_new(
        StreamId::from_u128(ID),
        &information(
            VideoSourceType::Redirect(VideoSourceRedirect { name: "Redirect".to_string() }),
            CaptureConfiguration::Redirect(RedirectCaptureConfiguration {}),
        ),
    );
    assert_eq!(result, Err(StreamError::UnsupportedConfiguration));
}

#[test]
fn other_sources_are_unsupported() {
    let gst = information(
        VideoSourceType::Gst(VideoSourceGst { name: "Fake".to_string() }),
        video(VideoEncodeType::H264, 1920, 1080, 30, 1),
    );
    assert_eq!(V4lPipeline::try_new(StreamId::from_u128(ID), &gst), Err(StreamError::UnsupportedSource));
    let redirect = information(
        VideoSourceType::Redirect(VideoSourceRedirect { name: "Redirect".to_string() }),
        video(VideoEncodeType::Unknown, 1920, 1080, 30, 1),
    );
    assert_eq!(V4lPipeline::try_new(StreamId::from_u128(ID), &redirect), Err(StreamError::UnsupportedSource));
}

#[test]
fn other_encodings_are_unsupported() {
    assert_eq!(
        V4lPipeline::try_new(StreamId::from_u128(ID), &full_hd(VideoEncodeType::H265)),
        Err(StreamError::Unsupported)
    );
    assert_eq!(
        V4lPipeline::try_new(StreamId::from_u128(ID), &full_hd(VideoEncodeType::Unknown)),
        Err(StreamError::Unsupported)
    );
}

#[test]
fn templates_exist_for_the_supported_encodings() {
    let h264 = Template::of(VideoEncodeType::H264).unwrap();
    assert_eq!(h264.prelude, Some("h264parse"));
    assert_eq!(h264.caps, "video/x-h264,stream-format=avc,alignment=au");
    assert_eq!(h264.payloader, "rtph264pay aggregate-mode=zero-latency config-interval=10 pt=96");
    let yuyv = Template::of(VideoEncodeType::Yuyv).unwrap();
    assert_eq!(yuyv.prelude, Some("videoconvert"));
    assert_eq!(yuyv.caps, "video/x-raw,format=I420");
    assert_eq!(yuyv.payloader, "rtpvrawpay pt=96");
    let mjpg = Template::of(VideoEncodeType::Mjpg).unwrap();
    assert_eq!(mjpg.prelude, None);
    assert_eq!(mjpg.caps, "image/jpeg");
    assert_eq!(mjpg.payloader, "rtpjpegpay pt=96");
    assert!(Template::of(VideoEncodeType::H265).is_none());
    assert!(Template::of(VideoEncodeType::Unknown).is_none());
}

#[test]
fn decimal_numbers() {
    let mut text = String::from("n=");
    push_decimal(&mut text, 0);
    text.push(',');
    push_decimal(&mut text, 7);
    text.push(',');
    push_decimal(&mut text, 10);
    text.push(',');
    push_decimal(&mut text, 1080);
    text.push(',');
    push_decimal(&mut text, 4294967295);
    assert_eq!(text, "n=0,7,10,1080,4294967295");
}

#[test]
fn joined_texts() {
    let parts = vec!["a".to_string(), "bc".to_string(), "".to_string(), "d".to_string()];
    assert_eq!(join(&parts, " ! "), "a ! bc !  ! d");
    assert_eq!(join(&parts[..1].to_vec(), " ! "), "a");
    assert_eq!(join(&Vec::new(), " ! "), "");
    assert_eq!(clone_texts(&parts), parts);
}

#[test]
fn copies_are_equal() {
    let original = information(local("/dev/video4"), video(VideoEncodeType::H264, 1280, 720, 1, 60));
    let copy = original.clone();
    assert_eq!(copy, original);
    let with_capabilities = VideoSourceLocal {
        name: "Camera".to_string(),
        device_path: "/dev/video0".to_string(),
        capabilities: vec![
            VideoCaptureConfiguration {
                encode: VideoEncodeType::Mjpg,
                height: 480,
                width: 640,
                frame_interval: FrameInterval { numerator: 1, denominator: 30 },
            },
            VideoCaptureConfiguration {
                encode: VideoEncodeType::H264,
                height: 1080,
                width: 1920,
                frame_interval: FrameInterval { numerator: 1, denominator: 30 },
            },
        ],
    };
    assert_eq!(with_capabilities.clone(), with_capabilities);
}
