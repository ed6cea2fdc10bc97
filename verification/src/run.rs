//! How a run goes on from frame to frame and how it ends.

use vstd::prelude::*;
use crate::timing::FRAME_COUNT;

verus! {

/// What follows a frame.
#[derive(Clone, Copy, Debug, PartialEq, Eq, Structural)]
pub enum LoopDecision {
    /// Draw another frame, unless the window is to close.
    Continue,
    /// End the loop: the run has drawn all the frames it is allowed.
    Stop,
    /// End the loop and hand the frame's error on.
    Fail,
}

/// How a run ended, as the process reports it.
#[derive(Clone, Copy, Debug, PartialEq, Eq, Structural)]
pub enum ExitStatus {
    Success,
    Failure,
}

/// The decision after a frame: a frame that failed ends the loop with its
/// error, whatever else holds; the frame that brings the count to
/// `FRAME_COUNT` ends it without; any other frame lets it go on.
pub open spec fn decided_after_frame(frame_succeeded: bool, frames_drawn: u32) -> LoopDecision {
    if !frame_succeeded {
        LoopDecision::Fail
    } else if frames_drawn == FRAME_COUNT {
        LoopDecision::Stop
    } else {
        LoopDecision::Continue
    }
}

/// Decides what follows a frame, given whether it succeeded and how many
/// frames have been drawn, this one included.
pub fn after_frame(frame_succeeded: bool, frames_drawn: u32) -> (decision: LoopDecision)
    ensures
        decision == decided_after_frame(frame_succeeded, frames_drawn),
{
    if !frame_succeeded {
        LoopDecision::Fail
    } else if frames_drawn == FRAME_COUNT {
        LoopDecision::Stop
    } else {
        LoopDecision::Continue
    }
}

/// The status the process ends with: success if the renderer was set up and
/// ran to its end, failure if either failed.
pub fn exit_status(succeeded: bool) -> (status: ExitStatus)
    ensures
        status == ExitStatus::Success <==> succeeded,
        status == ExitStatus::Failure <==> !succeeded,
{
    if succeeded {
        ExitStatus::Success
    } else {
        ExitStatus::Failure
    }
}

} // verus!
