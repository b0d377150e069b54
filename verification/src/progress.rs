//! Structured progress events of the preparation, launch and jump workflows.

use vstd::prelude::*;

verus! {

/// Receives structured progress events from the workflows.
pub trait ProgressSink<Event> {
    type Error;

    fn on_event(&mut self, event: Event) -> Result<(), Self::Error>;

    /// Called while a step runs; does nothing unless the sink animates.
    fn on_tick(&mut self) -> (r: Result<(), Self::Error>)
        default_ensures
            r is Ok,
    {
        Ok(())
    }
}

/// A step of a workflow started, finished, or finished with a warning.
#[derive(Clone, Debug, PartialEq, Eq)]
pub enum ProgressEvent<Step> {
    Started { step: Step, details: Vec<String> },
    Finished { step: Step },
    Warned { step: Step, details: Vec<String> },
}

impl<Step: Copy> ProgressEvent<Step> {
    /// The step the event is about.
    pub fn step(&self) -> (r: Step)
        ensures
            r == match *self {
                ProgressEvent::Started { step, .. } => step,
                ProgressEvent::Finished { step } => step,
                ProgressEvent::Warned { step, .. } => step,
            },
    {
        match self {
            ProgressEvent::Started { step, .. } => *step,
            ProgressEvent::Finished { step } => *step,
            ProgressEvent::Warned { step, .. } => *step,
        }
    }
}

/// Steps emitted while preparing the source.
#[derive(Clone, Copy, Debug, PartialEq, Eq, Hash, Structural)]
pub enum PrepareStep {
    SourceUrl,
    TimeJumps,
    SourceDetails,
    Tracks,
}

impl PrepareStep {
    /// Every step, in the order they run.
    pub fn all() -> (r: [PrepareStep; 4])
        ensures
            r@ == seq![
                PrepareStep::SourceUrl,
                PrepareStep::TimeJumps,
                PrepareStep::SourceDetails,
                PrepareStep::Tracks,
            ],
    {
        [PrepareStep::SourceUrl, PrepareStep::TimeJumps, PrepareStep::SourceDetails, PrepareStep::Tracks]
    }
}

/// Steps emitted while starting playback.
#[derive(Clone, Copy, Debug, PartialEq, Eq, Hash, Structural)]
pub enum LaunchStep {
    LocalStreamServer,
    Relay,
    Player,
}

impl LaunchStep {
    /// Every step, in the order they run.
    pub fn all() -> (r: [LaunchStep; 3])
        ensures
            r@ == seq![LaunchStep::LocalStreamServer, LaunchStep::Relay, LaunchStep::Player],
    {
        [LaunchStep::LocalStreamServer, LaunchStep::Relay, LaunchStep::Player]
    }
}

/// Steps emitted while switching to a new playback session.
#[derive(Clone, Copy, Debug, PartialEq, Eq, Hash, Structural)]
pub enum JumpStep {
    PrepareNextStream,
    WaitForStream,
    RefreshPlayer,
    CleanupPreviousSession,
}

impl JumpStep {
    /// Every step, in the order they run.
    pub fn all() -> (r: [JumpStep; 4])
        ensures
            r@ == seq![
                JumpStep::PrepareNextStream,
                JumpStep::WaitForStream,
                JumpStep::RefreshPlayer,
                JumpStep::CleanupPreviousSession,
            ],
    {
        [
            JumpStep::PrepareNextStream,
            JumpStep::WaitForStream,
            JumpStep::RefreshPlayer,
            JumpStep::CleanupPreviousSession,
        ]
    }
}

/// Structured preparation progress event.
pub type PrepareEvent = ProgressEvent<PrepareStep>;

/// Structured launch progress event.
pub type LaunchEvent = ProgressEvent<LaunchStep>;

/// Structured jump progress event.
pub type JumpEvent = ProgressEvent<JumpStep>;

} // verus!
