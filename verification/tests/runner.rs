use mavlink_camera_manager::error::StreamError;
use mavlink_camera_manager::stream::id::StreamId;
use mavlink_camera_manager::stream::pipeline::runner::{
    Activation, Notification, PipelineRunner, Release, RunnerState, Signal,
};
use mavlink_camera_manager::stream::pipeline::v4l_pipeline::V4lPipeline;
use mavlink_camera_manager::stream::pipeline::{Pipeline, PipelineState};

fn running() -> PipelineRunner {
    let mut runner = PipelineRunner::new();
    assert_eq!(runner.start(Activation::Active), Ok(()));
    runner
}

fn degraded() -> PipelineRunner {
    let mut runner = running();
    runner.observe(Signal::Error);
    runner
}

#[test]
fn a_new_runner_is_constructed() {
    let runner = PipelineRunner::new();
    assert_eq!(runner.state(), RunnerState::Constructed);
    assert!(runner.needs_activation());
    assert!(!runner.needs_release());
    assert!(!runner.is_running(true));
}

#[test]
fn start_runs_a_constructed_runner() {
    let runner = running();
    assert_eq!(runner.state(), RunnerState::Running);
    assert!(runner.is_running(true));
    assert!(!runner.needs_activation());
    assert!(runner.needs_release());
}

#[test]
fn start_that_timed_out_can_be_tried_again() {
    let mut runner = PipelineRunner::new();
    assert_eq!(runner.start(Activation::TimedOut), Err(StreamError::Timeout));
    assert_eq!(runner.state(), RunnerState::Constructed);
    assert_eq!(runner.start(Activation::Active), Ok(()));
    assert_eq!(runner.state(), RunnerState::Running);
}

#[test]
fn start_of_a_running_runner_is_a_no_op() {
    let mut runner = running();
    assert_eq!(runner.start(Activation::Active), Ok(()));
    assert_eq!(runner.state(), RunnerState::Running);
    assert_eq!(runner.start(Activation::TimedOut), Ok(()));
    assert_eq!(runner.state(), RunnerState::Running);
}

#[test]
fn start_never_leaves_degraded_or_stopped() {
    let mut runner = degraded();
    assert_eq!(runner.start(Activation::Active), Ok(()));
    assert_eq!(runner.state(), RunnerState::Degraded);
    assert_eq!(runner.stop(Release::Released), Ok(()));
    assert_eq!(runner.start(Activation::Active), Ok(()));
    assert_eq!(runner.state(), RunnerState::Stopped);
}

#[test]
fn a_running_pipeline_whose_graph_is_lost_does_not_run() {
    let runner = running();
    assert!(runner.is_running(true));
    assert!(!runner.is_running(false));
}

#[test]
fn signals_degrade_a_running_runner() {
    for signal in [Signal::EndOfStream, Signal::Error] {
        let mut runner = running();
        assert_eq!(runner.observe(signal), Some(Notification { signal }));
        assert_eq!(runner.state(), RunnerState::Degraded);
        assert!(!runner.is_running(true));
        assert_eq!(runner.observe(signal), None);
        assert_eq!(runner.state(), RunnerState::Degraded);
    }
}

#[test]
fn signals_change_no_other_state() {
    let mut runner = PipelineRunner::new();
    assert_eq!(runner.observe(Signal::Error), None);
    assert_eq!(runner.state(), RunnerState::Constructed);
    let mut runner = running();
    runner.stop(Release::Released).unwrap();
    assert_eq!(runner.observe(Signal::EndOfStream), None);
    assert_eq!(runner.state(), RunnerState::Stopped);
}

#[test]
fn stop_twice() {
    let mut runner = running();
    assert_eq!(runner.stop(Release::Released), Ok(()));
    assert_eq!(runner.state(), RunnerState::Stopped);
    assert_eq!(runner.stop(Release::Released), Ok(()));
    assert_eq!(runner.state(), RunnerState::Stopped);
    assert_eq!(runner.stop(Release::TimedOut), Ok(()));
    assert_eq!(runner.state(), RunnerState::Stopped);
    assert!(!runner.needs_release());
}

#[test]
fn stop_of_a_degraded_runner() {
    let mut runner = degraded();
    assert_eq!(runner.stop(Release::Released), Ok(()));
    assert_eq!(runner.state(), RunnerState::Stopped);
}

#[test]
fn stop_that_timed_out_can_be_tried_again() {
    let mut runner = running();
    assert_eq!(runner.stop(Release::TimedOut), Err(StreamError::Timeout));
    assert_eq!(runner.state(), RunnerState::Running);
    let mut runner = degraded();
    assert_eq!(runner.stop(Release::TimedOut), Err(StreamError::Timeout));
    assert_eq!(runner.state(), RunnerState::Degraded);
    assert_eq!(runner.stop(Release::Released), Ok(()));
    assert_eq!(runner.state(), RunnerState::Stopped);
}

#[test]
fn stop_of_a_constructed_runner_is_a_no_op() {
    let mut runner = PipelineRunner::new();
    assert_eq!(runner.stop(Release::Released), Ok(()));
    assert_eq!(runner.state(), RunnerState::Constructed);
}

#[test]
fn a_pipeline_answers_for_its_runner() {
    let pipeline = Pipeline::V4l(V4lPipeline {
        state: PipelineState { pipeline_id: StreamId::from_u128(5), pipeline_runner: running() },
    });
    assert_eq!(pipeline.pipeline_id(), StreamId::from_u128(5));
    assert_eq!(pipeline.state(), RunnerState::Running);
    assert!(pipeline.is_running(true));
    assert!(!pipeline.is_running(false));
    let idle = V4lPipeline {
        state: PipelineState { pipeline_id: StreamId::from_u128(6), pipeline_runner: PipelineRunner::new() },
    };
    assert!(!idle.is_running(true));
}
