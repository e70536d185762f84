//! Pipelines: the text that the media engine is given, and the runner that
//! follows the life of the graph made from it.

pub mod runner;
pub mod v4l_pipeline;

use crate::stream::id::StreamId;
use crate::stream::pipeline::runner::{PipelineRunner, RunnerState};
use crate::stream::pipeline::v4l_pipeline::V4lPipeline;
use vstd::prelude::*;

verus! {

/// What every kind of pipeline keeps: its identifier and its runner.
#[derive(Debug)]
pub struct PipelineState {
    pub pipeline_id: StreamId,
    pub pipeline_runner: PipelineRunner,
}

/// A pipeline, by kind.
#[derive(Debug)]
pub enum Pipeline {
    V4l(V4lPipeline),
}

impl Pipeline {
    /// The identifier after which the pipeline's elements are named.
    pub open spec fn id(&self) -> StreamId {
        match self {
            Pipeline::V4l(pipeline) => pipeline.state.pipeline_id,
        }
    }

    /// Where the pipeline's runner stands.
    pub open spec fn runner_state(&self) -> RunnerState {
        match self {
            Pipeline::V4l(pipeline) => pipeline.state.pipeline_runner@,
        }
    }

    pub fn pipeline_id(&self) -> (id: StreamId)
        ensures
            id == self.id(),
    {
        match self {
            Pipeline::V4l(pipeline) => pipeline.state.pipeline_id,
        }
    }

    pub fn state(&self) -> (state: RunnerState)
        ensures
            state == self.runner_state(),
    {
        match self {
            Pipeline::V4l(pipeline) => pipeline.state.pipeline_runner.state(),
        }
    }

    /// Whether the pipeline runs and its graph can be reached.
    pub fn is_running(&self, graph_reachable: bool) -> (running: bool)
        ensures
            running == (self.runner_state() is Running && graph_reachable),
    {
        match self {
            Pipeline::V4l(pipeline) => pipeline.is_running(graph_reachable),
        }
    }
}

} // verus!
