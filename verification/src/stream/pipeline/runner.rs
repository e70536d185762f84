//! The runner of a pipeline: a small state machine that follows the graph
//! from its construction to its end. The runner decides; driving the graph
//! is left to whoever owns the media engine and reports back what happened.

use crate::error::{StreamError, StreamErrorView};
use vstd::prelude::*;

verus! {

/// Where a runner stands. `Constructed` is where it begins and `Stopped` is
/// where it ends.
#[derive(Clone, Copy, Debug, PartialEq, Eq, Structural)]
pub enum RunnerState {
    Constructed,
    Running,
    Degraded,
    Stopped,
}

/// What came of driving the graph to its active state within the time
/// allowed.
#[derive(Clone, Copy, Debug, PartialEq, Eq, Structural)]
pub enum Activation {
    Active,
    TimedOut,
}

/// What came of releasing the graph and its device within the time allowed.
#[derive(Clone, Copy, Debug, PartialEq, Eq, Structural)]
pub enum Release {
    Released,
    TimedOut,
}

/// A message of the graph that ends its healthy life.
#[derive(Clone, Copy, Debug, PartialEq, Eq, Structural)]
pub enum Signal {
    EndOfStream,
    Error,
}

/// Word for the holder of a stream that its graph has degraded, with the
/// signal that caused it.
#[derive(Clone, Copy, Debug, PartialEq, Eq, Structural)]
pub struct Notification {
    pub signal: Signal,
}

/// The state after `start`: a constructed runner whose graph became active
/// runs; every other runner stays where it is.
pub open spec fn after_start(state: RunnerState, activation: Activation) -> RunnerState {
    if state is Constructed && activation is Active {
        RunnerState::Running
    } else {
        state
    }
}

/// `start` fails only where a constructed runner's graph did not become
/// active in time.
pub open spec fn start_times_out(state: RunnerState, activation: Activation) -> bool {
    state is Constructed && activation is TimedOut
}

/// The state after `stop`: a running or degraded runner whose graph was
/// released is stopped; every other runner stays where it is.
pub open spec fn after_stop(state: RunnerState, release: Release) -> RunnerState {
    if (state is Running || state is Degraded) && release is Released {
        RunnerState::Stopped
    } else {
        state
    }
}

/// `stop` fails only where a running or degraded runner's graph was not
/// released in time.
pub open spec fn stop_times_out(state: RunnerState, release: Release) -> bool {
    (state is Running || state is Degraded) && release is TimedOut
}

/// The state after a signal of the graph: a running runner degrades; every
/// other runner stays where it is.
pub open spec fn after_signal(state: RunnerState) -> RunnerState {
    if state is Running {
        RunnerState::Degraded
    } else {
        state
    }
}

/// One step of the machine is one of the listed transitions or none.
pub open spec fn listed_transition(from: RunnerState, to: RunnerState) -> bool {
    ||| from == to
    ||| from is Constructed && to is Running
    ||| from is Running && to is Degraded
    ||| from is Running && to is Stopped
    ||| from is Degraded && to is Stopped
}

/// Every operation moves the runner along a listed transition, and a
/// stopped runner never leaves its state.
pub proof fn lemma_transitions(
    state: RunnerState,
    activation: Activation,
    release: Release,
)
    ensures
        listed_transition(state, after_start(state, activation)),
        listed_transition(state, after_stop(state, release)),
        listed_transition(state, after_signal(state)),
        state is Stopped ==> after_start(state, activation) is Stopped && after_stop(
            state,
            release,
        ) is Stopped && after_signal(state) is Stopped,
{
}

/// After a call of `start` that did not fail, a second call changes
/// nothing and fails in no case.
pub proof fn lemma_start_is_idempotent(state: RunnerState, first: Activation, second: Activation)
    requires
        !start_times_out(state, first),
    ensures
        after_start(after_start(state, first), second) == after_start(state, first),
        !start_times_out(after_start(state, first), second),
        state is Constructed ==> after_start(state, first) is Running,
{
}

/// After a call of `stop` that did not fail, a second call changes nothing
/// and fails in no case. Where the runner was running, degraded or stopped
/// before the first call, it is stopped after it and remains so.
pub proof fn lemma_stop_is_idempotent(state: RunnerState, first: Release, second: Release)
    requires
        !stop_times_out(state, first),
    ensures
        after_stop(after_stop(state, first), second) == after_stop(state, first),
        !stop_times_out(after_stop(state, first), second),
        !(state is Constructed) ==> after_stop(state, first) is Stopped,
{
}

/// The runner of one pipeline.
#[derive(Debug)]
pub struct PipelineRunner {
    state: RunnerState,
}

impl View for PipelineRunner {
    type V = RunnerState;

    closed spec fn view(&self) -> RunnerState {
        self.state
    }
}

impl PipelineRunner {
    /// A runner for a graph that was built and not started yet.
    pub fn new() -> (runner: PipelineRunner)
        ensures
            runner@ is Constructed,
    {
        PipelineRunner { state: RunnerState::Constructed }
    }

    pub fn state(&self) -> (state: RunnerState)
        ensures
            state == self@,
    {
        self.state
    }

    /// Whether `start` will read the outcome of an activation: only a
    /// constructed runner has a graph to activate.
    pub fn needs_activation(&self) -> (needed: bool)
        ensures
            needed == (self@ is Constructed),
    {
        match self.state {
            RunnerState::Constructed => true,
            _ => false,
        }
    }

    /// Whether `stop` will read the outcome of a release: only a running or
    /// degraded runner has a graph to release.
    pub fn needs_release(&self) -> (needed: bool)
        ensures
            needed == (self@ is Running || self@ is Degraded),
    {
        match self.state {
            RunnerState::Running | RunnerState::Degraded => true,
            _ => false,
        }
    }

    /// Starts the runner. `activation` says what came of driving the graph
    /// to its active state; it is read only where the runner is constructed.
    pub fn start(&mut self, activation: Activation) -> (result: Result<(), StreamError>)
        ensures
            final(self)@ == after_start(old(self)@, activation),
            result is Err <==> start_times_out(old(self)@, activation),
            result matches Err(error) ==> error@ == StreamErrorView::Timeout,
    {
        match self.state {
            RunnerState::Constructed => match activation {
                Activation::Active => {
                    self.state = RunnerState::Running;
                    Ok(())
                },
                Activation::TimedOut => Err(StreamError::Timeout),
            },
            _ => Ok(()),
        }
    }

    /// Stops the runner. `release` says what came of releasing the graph; it
    /// is read only where the runner is running or degraded.
    pub fn stop(&mut self, release: Release) -> (result: Result<(), StreamError>)
        ensures
            final(self)@ == after_stop(old(self)@, release),
            result is Err <==> stop_times_out(old(self)@, release),
            result matches Err(error) ==> error@ == StreamErrorView::Timeout,
    {
        match self.state {
            RunnerState::Running | RunnerState::Degraded => match release {
                Release::Released => {
                    self.state = RunnerState::Stopped;
                    Ok(())
                },
                Release::TimedOut => Err(StreamError::Timeout),
            },
            _ => Ok(()),
        }
    }

    /// Takes a signal of the graph. A running runner degrades and hands out
    /// the notification for the holder of the stream; in every other state
    /// nothing changes and nothing is handed out.
    pub fn observe(&mut self, signal: Signal) -> (notification: Option<Notification>)
        ensures
            final(self)@ == after_signal(old(self)@),
            notification == if old(self)@ is Running {
                Some((Notification { signal }))
            } else {
                None
            },
    {
        match self.state {
            RunnerState::Running => {
                self.state = RunnerState::Degraded;
                Some(Notification { signal })
            },
            _ => None,
        }
    }

    /// Whether the pipeline runs: the runner is running and the graph can
    /// be reached, as `graph_reachable` says.
    pub fn is_running(&self, graph_reachable: bool) -> (running: bool)
        ensures
            running == (self@ is Running && graph_reachable),
    {
        match self.state {
            RunnerState::Running => graph_reachable,
            _ => false,
        }
    }
}

} // verus!
