//! The decisions of the adapter command's serve loop.

use vstd::prelude::*;

verus! {

/// What happened while the serve loop waited.
#[derive(Debug, Clone, Copy, PartialEq, Eq, Structural)]
pub enum AdapterLoopEvent {
    /// Ctrl+C was pressed.
    Interrupted,
    /// The poll interval elapsed.
    Tick,
    /// A poll of all adapters succeeded.
    PollSucceeded,
    /// A poll of the adapters failed.
    PollFailed,
}

/// What the serve loop does next.
#[derive(Debug, Clone, Copy, PartialEq, Eq, Structural)]
pub enum AdapterLoopAction {
    /// Stop serving and return success.
    Stop,
    /// Poll every adapter once.
    PollAdapters,
    /// Report the poll error and keep serving.
    ReportPollErrorAndContinue,
    /// Wait for the next event.
    Wait,
}

/// The loop's response to each event.
pub open spec fn loop_action_for(event: AdapterLoopEvent) -> AdapterLoopAction {
    match event {
        AdapterLoopEvent::Interrupted => AdapterLoopAction::Stop,
        AdapterLoopEvent::Tick => AdapterLoopAction::PollAdapters,
        AdapterLoopEvent::PollSucceeded => AdapterLoopAction::Wait,
        AdapterLoopEvent::PollFailed => AdapterLoopAction::ReportPollErrorAndContinue,
    }
}

/// The next action of the serve loop: only an interrupt ends it; a failed poll is
/// reported and serving goes on.
pub fn next_adapter_loop_action(event: AdapterLoopEvent) -> (a: AdapterLoopAction)
    ensures
        a == loop_action_for(event),
        (a == AdapterLoopAction::Stop) <==> (event == AdapterLoopEvent::Interrupted),
{
    match event {
        AdapterLoopEvent::Interrupted => AdapterLoopAction::Stop,
        AdapterLoopEvent::Tick => AdapterLoopAction::PollAdapters,
        AdapterLoopEvent::PollSucceeded => AdapterLoopAction::Wait,
        AdapterLoopEvent::PollFailed => AdapterLoopAction::ReportPollErrorAndContinue,
    }
}

} // verus!
