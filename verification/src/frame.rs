//! The per-frame synchronisation protocol of the draw loop.
//!
//! The orchestrator owns no driver object. It is told what the driver
//! answered and says what to do next; the caller carries that out and comes
//! back with the outcome. Each in-flight slot stands for one fence, one pair
//! of semaphores and one command buffer.

use vstd::prelude::*;
use vstd::arithmetic::div_mod::{lemma_fundamental_div_mod, lemma_fundamental_div_mod_converse};
use crate::render::PIPELINE_STAGE_COLOR_ATTACHMENT_OUTPUT_BIT;

verus! {

/// How many frames may be in flight at once in the stock renderer.
pub const MAX_FRAMES_IN_FLIGHT: u32 = 2;

/// Where one in-flight slot stands between the host and the device.
#[derive(Clone, Copy, Debug, PartialEq, Eq, Structural)]
pub enum SlotState {
    /// The fence is signalled and the host has seen it: the command buffer
    /// is free to be reused.
    Retired,
    /// The fence has been reset and nothing is submitted yet: the command
    /// buffer is being recorded.
    Reset,
    /// The command buffer is submitted and the host has not yet waited for
    /// its fence.
    InFlight,
}

/// What the present call reported.
#[derive(Clone, Copy, Debug, PartialEq, Eq, Structural)]
pub enum PresentOutcome {
    /// The image was queued and the swapchain still fits the surface.
    Optimal,
    /// The image was queued, but the swapchain no longer fits the surface well.
    Suboptimal,
    /// The swapchain no longer fits the surface at all.
    OutOfDate,
    /// The call failed for any other reason.
    Failed,
}

/// What follows a present call.
#[derive(Clone, Copy, Debug, PartialEq, Eq, Structural)]
pub enum PresentDecision {
    /// Go on to the next frame.
    Continue,
    /// Rebuild the swapchain, then go on to the next frame.
    Recreate,
    /// Give up: the error is not one the loop recovers from.
    Fail,
}

/// The decision after a present call. A call that failed for any reason but
/// an outdated swapchain is fatal, whether or not a resize is pending. Short
/// of that, the swapchain is rebuilt when the call reported it suboptimal or
/// out of date, or when a resize is pending; otherwise the loop goes on.
pub open spec fn decided_after_present(outcome: PresentOutcome, resize_pending: bool)
    -> PresentDecision {
    if outcome == PresentOutcome::Failed {
        PresentDecision::Fail
    } else if outcome == PresentOutcome::Suboptimal || outcome == PresentOutcome::OutOfDate
        || resize_pending {
        PresentDecision::Recreate
    } else {
        PresentDecision::Continue
    }
}

/// Decides what follows a present call.
pub fn present_decision(outcome: PresentOutcome, resize_pending: bool) -> (decision:
    PresentDecision)
    ensures
        decision == decided_after_present(outcome, resize_pending),
{
    match outcome {
        PresentOutcome::Failed => PresentDecision::Fail,
        PresentOutcome::Suboptimal => PresentDecision::Recreate,
        PresentOutcome::OutOfDate => PresentDecision::Recreate,
        PresentOutcome::Optimal => if resize_pending {
            PresentDecision::Recreate
        } else {
            PresentDecision::Continue
        },
    }
}

/// Only an invalid swapchain is recovered from: the swapchain is rebuilt
/// after a present call only if the call did not fail, and a failed call
/// ends the loop whatever else is pending.
pub proof fn lemma_failed_present_is_fatal(outcome: PresentOutcome, resize_pending: bool)
    ensures
        decided_after_present(outcome, resize_pending) == PresentDecision::Fail <==> outcome
            == PresentOutcome::Failed,
        decided_after_present(outcome, resize_pending) == PresentDecision::Recreate ==> outcome
            != PresentOutcome::Failed,
        decided_after_present(outcome, resize_pending) == PresentDecision::Continue <==> outcome
            == PresentOutcome::Optimal && !resize_pending,
{
}

/// The step of a frame that the orchestrator is waiting on.
#[derive(Clone, Copy, Debug, PartialEq, Eq, Structural)]
pub enum FrameStage {
    /// Between frames.
    Ready,
    /// Waiting for the slot's fence.
    WaitingFence,
    /// Waiting for the next image of the swapchain.
    Acquiring,
    /// Waiting for the slot's uniform data to be written.
    UpdatingUniforms,
    /// Waiting for the slot's fence to be reset.
    ResettingFence,
    /// Waiting for the slot's command buffer to be reset and recorded.
    Recording,
    /// Waiting for the command buffer to be submitted.
    Submitting,
    /// Waiting for the image to be presented.
    Presenting,
    /// Waiting for the swapchain to be rebuilt. `advance` says whether the
    /// frame was submitted, and so whether the next frame moves to the next
    /// slot.
    Recreating { advance: bool },
    /// An unrecoverable error occurred. Nothing leads out of this stage.
    Failed,
}

/// What the caller reports to the orchestrator.
#[derive(Clone, Copy, Debug, PartialEq, Eq, Structural)]
pub enum FrameEvent {
    /// A new frame is to be drawn.
    Begin,
    /// The wait for the slot's fence returned.
    FenceSignaled,
    /// The swapchain handed out the image with this index.
    ImageAcquired { image_index: u32 },
    /// The swapchain refused to hand out an image because it is out of date.
    AcquireOutOfDate,
    /// The slot's uniform data is written.
    UniformsWritten,
    /// The slot's fence is reset.
    FenceReset,
    /// The slot's command buffer is reset and recorded.
    CommandsRecorded,
    /// The slot's command buffer is submitted.
    Submitted,
    /// The present call returned; `resize_pending` is the resize flag as read,
    /// and cleared, after the call.
    Presented { outcome: PresentOutcome, resize_pending: bool },
    /// The swapchain and what depends on it are rebuilt.
    SwapchainRecreated,
    /// The last action failed with an error that is not recovered from.
    Failed,
}

/// What the orchestrator asks the caller to do next.
#[derive(Clone, Copy, Debug, PartialEq, Eq, Structural)]
pub enum FrameAction {
    /// Block until the slot's fence is signalled.
    WaitForFence { slot: u32 },
    /// Acquire the next image, signalling the slot's image-available semaphore.
    AcquireImage { slot: u32 },
    /// Write this frame's uniform data into the slot's mapped buffer.
    UpdateUniforms { slot: u32 },
    /// Reset the slot's fence.
    ResetFence { slot: u32 },
    /// Reset the slot's command buffer and record the frame into it, drawing
    /// to the image with the given index.
    ResetAndRecord { slot: u32, image_index: u32 },
    /// Submit the slot's command buffer: wait on the image-available
    /// semaphore, signal the render-finished semaphore and the fence.
    Submit { slot: u32 },
    /// Present the image, waiting on the slot's render-finished semaphore.
    Present { slot: u32, image_index: u32 },
    /// Rebuild the swapchain and what depends on it.
    RecreateSwapchain,
    /// The frame is over; report `Begin` for the next one.
    FrameDone,
    /// Stop the loop with an error.
    Abort,
}

/// The timeout that stands for waiting without end.
pub const NO_TIMEOUT: u64 = 0xFFFF_FFFF_FFFF_FFFF;

/// One of the semaphores of an in-flight slot.
#[derive(Clone, Copy, Debug, PartialEq, Eq, Structural)]
pub enum Semaphore {
    /// Signalled when the image acquired for the slot's frame can be drawn to.
    ImageAvailable { slot: u32 },
    /// Signalled when the slot's frame is drawn.
    RenderFinished { slot: u32 },
}

/// How the host waits for a slot's fence.
#[derive(Clone, Copy, Debug, PartialEq, Eq, Structural)]
pub struct FenceWaitPlan {
    /// The slot whose fence is waited for.
    pub fence: u32,
    pub timeout: u64,
}

/// How the next image is acquired.
#[derive(Clone, Copy, Debug, PartialEq, Eq, Structural)]
pub struct AcquirePlan {
    pub timeout: u64,
    /// The semaphore the presentation engine signals when the image is free.
    pub signal_semaphore: Semaphore,
}

/// How a slot's command buffer is submitted.
#[derive(Clone, Copy, Debug, PartialEq, Eq, Structural)]
pub struct SubmitPlan {
    /// The slot whose command buffer is submitted.
    pub command_buffer: u32,
    /// The semaphore the device waits on before the stages of `wait_stage_mask`.
    pub wait_semaphore: Semaphore,
    pub wait_stage_mask: u32,
    /// The semaphore the device signals when the command buffer is done.
    pub signal_semaphore: Semaphore,
    /// The slot whose fence the device signals when the command buffer is done.
    pub signal_fence: u32,
}

/// How an image is presented.
#[derive(Clone, Copy, Debug, PartialEq, Eq, Structural)]
pub struct PresentPlan {
    /// The semaphore the presentation engine waits on.
    pub wait_semaphore: Semaphore,
    pub image_index: u32,
}

/// The wait for the fence of `slot`: without timeout.
pub open spec fn fence_wait_for(slot: u32) -> FenceWaitPlan {
    FenceWaitPlan { fence: slot, timeout: NO_TIMEOUT }
}

/// The acquisition of the next image for the frame of `slot`: without
/// timeout, signalling the slot's image-available semaphore.
pub open spec fn acquire_for(slot: u32) -> AcquirePlan {
    AcquirePlan { timeout: NO_TIMEOUT, signal_semaphore: Semaphore::ImageAvailable { slot } }
}

/// The submission of the command buffer of `slot`: writing colour waits
/// until the image is available, and the end of the work signals the slot's
/// render-finished semaphore and its fence.
pub open spec fn submit_for(slot: u32) -> SubmitPlan {
    SubmitPlan {
        command_buffer: slot,
        wait_semaphore: Semaphore::ImageAvailable { slot },
        wait_stage_mask: PIPELINE_STAGE_COLOR_ATTACHMENT_OUTPUT_BIT,
        signal_semaphore: Semaphore::RenderFinished { slot },
        signal_fence: slot,
    }
}

/// The presentation of the image drawn by the frame of `slot`: it waits
/// until the slot's frame is drawn.
pub open spec fn present_for(slot: u32, image_index: u32) -> PresentPlan {
    PresentPlan { wait_semaphore: Semaphore::RenderFinished { slot }, image_index }
}

/// Plans the wait for the fence of `slot`.
pub fn plan_fence_wait(slot: u32) -> (plan: FenceWaitPlan)
    ensures
        plan == fence_wait_for(slot),
{
    FenceWaitPlan { fence: slot, timeout: NO_TIMEOUT }
}

/// Plans the acquisition of the next image for the frame of `slot`.
pub fn plan_acquire(slot: u32) -> (plan: AcquirePlan)
    ensures
        plan == acquire_for(slot),
{
    AcquirePlan { timeout: NO_TIMEOUT, signal_semaphore: Semaphore::ImageAvailable { slot } }
}

/// Plans the submission of the command buffer of `slot`.
pub fn plan_submit(slot: u32) -> (plan: SubmitPlan)
    ensures
        plan == submit_for(slot),
{
    SubmitPlan {
        command_buffer: slot,
        wait_semaphore: Semaphore::ImageAvailable { slot },
        wait_stage_mask: PIPELINE_STAGE_COLOR_ATTACHMENT_OUTPUT_BIT,
        signal_semaphore: Semaphore::RenderFinished { slot },
        signal_fence: slot,
    }
}

/// Plans the presentation of the image drawn by the frame of `slot`.
pub fn plan_present(slot: u32, image_index: u32) -> (plan: PresentPlan)
    ensures
        plan == present_for(slot, image_index),
{
    PresentPlan { wait_semaphore: Semaphore::RenderFinished { slot }, image_index }
}

/// The work of a frame is ordered on the device by the semaphores of its
/// slot and handed back to the host by the slot's fence: the submission
/// waits for what the acquisition signals, the presentation for what the
/// submission signals, and the fence the submission signals is the one the
/// host waits for before it uses the slot again. No two slots share any of
/// these.
pub proof fn lemma_frame_work_is_chained(slot: u32, other: u32, image_index: u32)
    ensures
        submit_for(slot).wait_semaphore == acquire_for(slot).signal_semaphore,
        present_for(slot, image_index).wait_semaphore == submit_for(slot).signal_semaphore,
        fence_wait_for(slot).fence == submit_for(slot).signal_fence,
        submit_for(slot).command_buffer == slot,
        slot != other ==> {
            &&& acquire_for(slot).signal_semaphore != acquire_for(other).signal_semaphore
            &&& submit_for(slot).signal_semaphore != submit_for(other).signal_semaphore
            &&& submit_for(slot).signal_fence != submit_for(other).signal_fence
            &&& submit_for(slot).wait_semaphore != submit_for(other).signal_semaphore
        },
{
}

/// The orchestrator as a mathematical value.
pub ghost struct FrameModel {
    /// Number of in-flight slots.
    pub frames_in_flight: u32,
    /// Number of frames submitted so far.
    pub frame_counter: nat,
    pub stage: FrameStage,
    /// Index of the image acquired for the frame under way.
    pub image_index: u32,
    /// State of each slot.
    pub slots: Seq<SlotState>,
}

impl FrameModel {
    /// The slot of the frame under way: the frame counter modulo the number
    /// of slots.
    pub open spec fn current_slot(self) -> u32 {
        (self.frame_counter % (self.frames_in_flight as nat)) as u32
    }

    /// The model with the current slot put into `state`.
    pub open spec fn with_current_slot(self, state: SlotState) -> FrameModel {
        FrameModel { slots: self.slots.update(self.current_slot() as int, state), ..self }
    }

    /// The model at `stage`.
    pub open spec fn at(self, stage: FrameStage) -> FrameModel {
        FrameModel { stage, ..self }
    }

    /// The model between frames, moved on to the next slot if `advance`.
    pub open spec fn finished(self, advance: bool) -> FrameModel {
        FrameModel {
            stage: FrameStage::Ready,
            frame_counter: if advance {
                self.frame_counter + 1
            } else {
                self.frame_counter
            },
            ..self
        }
    }

    /// The model after an unrecoverable error.
    pub open spec fn failed(self) -> FrameModel {
        self.at(FrameStage::Failed)
    }

    /// The orchestrator before the first frame: every slot is retired, as
    /// its fence is created signalled.
    pub open spec fn initial(frames_in_flight: u32) -> FrameModel {
        FrameModel {
            frames_in_flight,
            frame_counter: 0,
            stage: FrameStage::Ready,
            image_index: 0,
            slots: Seq::new(frames_in_flight as nat, |i: int| SlotState::Retired),
        }
    }

    /// The orchestrator after a whole sequence of events.
    pub open spec fn after(self, events: Seq<FrameEvent>) -> FrameModel
        decreases events.len(),
    {
        if events.len() == 0 {
            self
        } else {
            self.after(events.drop_last()).step(events.last()).0
        }
    }

    /// The number of slots whose command buffer is submitted and not yet
    /// known to have finished.
    pub open spec fn in_flight_count(self) -> nat {
        self.slots.filter(|s: SlotState| s == SlotState::InFlight).len()
    }

    /// What holds of the orchestrator at every moment: there is at least one
    /// slot, every slot has a state, only the current slot can be between
    /// fence reset and submission, and the current slot is in the state that
    /// the stage of the frame calls for.
    pub open spec fn inv(self) -> bool {
        &&& self.frames_in_flight >= 1
        &&& self.slots.len() == self.frames_in_flight
        &&& forall|i: int|
            0 <= i < self.slots.len() && i != self.current_slot() ==> #[trigger] self.slots[i]
                != SlotState::Reset
        &&& match self.stage {
            FrameStage::Ready | FrameStage::WaitingFence => self.slots[self.current_slot() as int]
                != SlotState::Reset,
            FrameStage::Acquiring | FrameStage::UpdatingUniforms | FrameStage::ResettingFence =>
                self.slots[self.current_slot() as int] == SlotState::Retired,
            FrameStage::Recording | FrameStage::Submitting => self.slots[self.current_slot() as int]
                == SlotState::Reset,
            FrameStage::Presenting => self.slots[self.current_slot() as int]
                == SlotState::InFlight,
            FrameStage::Recreating { advance } => self.slots[self.current_slot() as int] == (
            if advance {
                SlotState::InFlight
            } else {
                SlotState::Retired
            }),
            FrameStage::Failed => true,
        }
    }

    /// The orchestrator after `event`, and the action it asks for.
    ///
    /// A frame runs through its stages in order: wait for the fence, acquire,
    /// update, reset the fence, reset and record, submit, present. An image
    /// that cannot be acquired because the swapchain is out of date ends the
    /// frame with a rebuild and without touching the slot further. A failure,
    /// or an event that the stage does not expect, is final.
    pub open spec fn step(self, event: FrameEvent) -> (FrameModel, FrameAction) {
        let slot = self.current_slot();
        match (self.stage, event) {
            (FrameStage::Ready, FrameEvent::Begin) => (
                self.at(FrameStage::WaitingFence),
                FrameAction::WaitForFence { slot },
            ),
            (FrameStage::WaitingFence, FrameEvent::FenceSignaled) => (
                self.with_current_slot(SlotState::Retired).at(FrameStage::Acquiring),
                FrameAction::AcquireImage { slot },
            ),
            (FrameStage::Acquiring, FrameEvent::ImageAcquired { image_index }) => (
                FrameModel { image_index, ..self.at(FrameStage::UpdatingUniforms) },
                FrameAction::UpdateUniforms { slot },
            ),
            (FrameStage::Acquiring, FrameEvent::AcquireOutOfDate) => (
                self.at(FrameStage::Recreating { advance: false }),
                FrameAction::RecreateSwapchain,
            ),
            (FrameStage::UpdatingUniforms, FrameEvent::UniformsWritten) => (
                self.at(FrameStage::ResettingFence),
                FrameAction::ResetFence { slot },
            ),
            (FrameStage::ResettingFence, FrameEvent::FenceReset) => (
                self.with_current_slot(SlotState::Reset).at(FrameStage::Recording),
                FrameAction::ResetAndRecord { slot, image_index: self.image_index },
            ),
            (FrameStage::Recording, FrameEvent::CommandsRecorded) => (
                self.at(FrameStage::Submitting),
                FrameAction::Submit { slot },
            ),
            (FrameStage::Submitting, FrameEvent::Submitted) => (
                self.with_current_slot(SlotState::InFlight).at(FrameStage::Presenting),
                FrameAction::Present { slot, image_index: self.image_index },
            ),
            (FrameStage::Presenting, FrameEvent::Presented { outcome, resize_pending }) => {
                match decided_after_present(outcome, resize_pending) {
                    PresentDecision::Continue => (self.finished(true), FrameAction::FrameDone),
                    PresentDecision::Recreate => (
                        self.at(FrameStage::Recreating { advance: true }),
                        FrameAction::RecreateSwapchain,
                    ),
                    PresentDecision::Fail => (self.failed(), FrameAction::Abort),
                }
            },
            (FrameStage::Recreating { advance }, FrameEvent::SwapchainRecreated) => (
                self.finished(advance),
                FrameAction::FrameDone,
            ),
            _ => (self.failed(), FrameAction::Abort),
        }
    }
}

/// The frame loop's bookkeeping: which slot the frame under way uses, how far
/// the frame has got, and where each slot stands.
pub struct FrameOrchestrator {
    frames_in_flight: u32,
    current_frame: u32,
    frame_counter: Ghost<nat>,
    stage: FrameStage,
    image_index: u32,
    slots: Vec<SlotState>,
}

impl View for FrameOrchestrator {
    type V = FrameModel;

    closed spec fn view(&self) -> FrameModel {
        FrameModel {
            frames_in_flight: self.frames_in_flight,
            frame_counter: self.frame_counter@,
            stage: self.stage,
            image_index: self.image_index,
            slots: self.slots@,
        }
    }
}

impl FrameOrchestrator {
    /// The orchestrator is consistent with itself and its model keeps the
    /// invariant.
    pub closed spec fn wf(&self) -> bool {
        &&& self@.inv()
        &&& self.current_frame == self@.current_slot()
    }

    /// A well-formed orchestrator keeps the invariant of its model.
    pub proof fn lemma_well_formed(&self)
        requires
            self.wf(),
        ensures
            self@.inv(),
    {
    }

    /// An orchestrator for `frames_in_flight` slots, before the first frame.
    /// Every slot starts retired, as its fence is created signalled.
    pub fn new(frames_in_flight: u32) -> (orchestrator: FrameOrchestrator)
        requires
            frames_in_flight >= 1,
        ensures
            orchestrator.wf(),
            orchestrator@ == FrameModel::initial(frames_in_flight),
    {
        let mut slots: Vec<SlotState> = Vec::new();
        let mut i: u32 = 0;
        while i < frames_in_flight
            invariant
                i <= frames_in_flight,
                slots@.len() == i,
                forall|j: int| 0 <= j < i ==> slots@[j] == SlotState::Retired,
            decreases frames_in_flight - i,
        {
            slots.push(SlotState::Retired);
            i += 1;
        }
        assert(slots@ =~= Seq::new(frames_in_flight as nat, |i: int| SlotState::Retired));
        proof {
            lemma_next_slot(0, frames_in_flight as nat);
        }
        FrameOrchestrator {
            frames_in_flight,
            current_frame: 0,
            frame_counter: Ghost(0),
            stage: FrameStage::Ready,
            image_index: 0,
            slots,
        }
    }

    /// The slot of the frame under way.
    pub fn current_frame(&self) -> (slot: u32)
        requires
            self.wf(),
        ensures
            slot == self@.current_slot(),
            slot < self@.frames_in_flight,
    {
        self.current_frame
    }

    /// The number of slots.
    pub fn frames_in_flight(&self) -> (count: u32)
        ensures
            count == self@.frames_in_flight,
    {
        self.frames_in_flight
    }

    /// The stage the frame under way has reached.
    pub fn stage(&self) -> (stage: FrameStage)
        ensures
            stage == self@.stage,
    {
        self.stage
    }

    /// The state of slot `slot`.
    pub fn slot_state(&self, slot: u32) -> (state: SlotState)
        requires
            self.wf(),
            slot < self@.frames_in_flight,
        ensures
            state == self@.slots[slot as int],
    {
        self.slots[slot as usize]
    }

    /// The number of slots whose command buffer is submitted and not yet
    /// known to have finished.
    pub fn in_flight(&self) -> (count: u32)
        requires
            self.wf(),
        ensures
            count == self@.in_flight_count(),
            count <= self@.frames_in_flight,
    {
        let ghost pred = |s: SlotState| s == SlotState::InFlight;
        let mut count: u32 = 0;
        let mut i: usize = 0;
        while i < self.slots.len()
            invariant
                i <= self.slots@.len(),
                self.slots@.len() == self.frames_in_flight,
                pred == (|s: SlotState| s == SlotState::InFlight),
                count == self.slots@.take(i as int).filter(pred).len(),
                count <= i,
            decreases self.slots@.len() - i,
        {
            proof {
                let before = self.slots@.take(i as int);
                let after = self.slots@.take(i + 1);
                assert(after.drop_last() =~= before);
                reveal(Seq::filter);
            }
            if self.slots[i] == SlotState::InFlight {
                count += 1;
            }
            i += 1;
        }
        assert(self.slots@.take(i as int) =~= self.slots@);
        count
    }

    /// Takes in what the caller reports and says what to do next.
    pub fn step(&mut self, event: FrameEvent) -> (action: FrameAction)
        requires
            old(self).wf(),
        ensures
            final(self).wf(),
            (final(self)@, action) == old(self)@.step(event),
    {
        let slot = self.current_frame;
        let action = match (self.stage, event) {
            (FrameStage::Ready, FrameEvent::Begin) => {
                self.stage = FrameStage::WaitingFence;
                FrameAction::WaitForFence { slot }
            },
            (FrameStage::WaitingFence, FrameEvent::FenceSignaled) => {
                self.slots.set(slot as usize, SlotState::Retired);
                self.stage = FrameStage::Acquiring;
                FrameAction::AcquireImage { slot }
            },
            (FrameStage::Acquiring, FrameEvent::ImageAcquired { image_index }) => {
                self.image_index = image_index;
                self.stage = FrameStage::UpdatingUniforms;
                FrameAction::UpdateUniforms { slot }
            },
            (FrameStage::Acquiring, FrameEvent::AcquireOutOfDate) => {
                self.stage = FrameStage::Recreating { advance: false };
                FrameAction::RecreateSwapchain
            },
            (FrameStage::UpdatingUniforms, FrameEvent::UniformsWritten) => {
                self.stage = FrameStage::ResettingFence;
                FrameAction::ResetFence { slot }
            },
            (FrameStage::ResettingFence, FrameEvent::FenceReset) => {
                self.slots.set(slot as usize, SlotState::Reset);
                self.stage = FrameStage::Recording;
                FrameAction::ResetAndRecord { slot, image_index: self.image_index }
            },
            (FrameStage::Recording, FrameEvent::CommandsRecorded) => {
                self.stage = FrameStage::Submitting;
                FrameAction::Submit { slot }
            },
            (FrameStage::Submitting, FrameEvent::Submitted) => {
                self.slots.set(slot as usize, SlotState::InFlight);
                self.stage = FrameStage::Presenting;
                FrameAction::Present { slot, image_index: self.image_index }
            },
            (FrameStage::Presenting, FrameEvent::Presented { outcome, resize_pending }) => {
                match present_decision(outcome, resize_pending) {
                    PresentDecision::Continue => {
                        self.advance();
                        self.stage = FrameStage::Ready;
                        FrameAction::FrameDone
                    },
                    PresentDecision::Recreate => {
                        self.stage = FrameStage::Recreating { advance: true };
                        FrameAction::RecreateSwapchain
                    },
                    PresentDecision::Fail => {
                        self.stage = FrameStage::Failed;
                        FrameAction::Abort
                    },
                }
            },
            (FrameStage::Recreating { advance }, FrameEvent::SwapchainRecreated) => {
                if advance {
                    self.advance();
                }
                self.stage = FrameStage::Ready;
                FrameAction::FrameDone
            },
            _ => {
                self.stage = FrameStage::Failed;
                FrameAction::Abort
            },
        };
        action
    }

    /// Moves on to the next slot.
    fn advance(&mut self)
        requires
            old(self).frames_in_flight >= 1,
            old(self).current_frame == old(self)@.current_slot(),
        ensures
            final(self)@ == (FrameModel {
                frame_counter: old(self)@.frame_counter + 1,
                ..old(self)@
            }),
            final(self).current_frame == final(self)@.current_slot(),
    {
        proof {
            lemma_next_slot(self@.frame_counter, self@.frames_in_flight as nat);
        }
        self.current_frame = if self.current_frame + 1 == self.frames_in_flight {
            0
        } else {
            self.current_frame + 1
        };
        self.frame_counter = Ghost((self.frame_counter@ + 1) as nat);
    }
}

/// Moving on by one frame moves on by one slot, back to the first after the
/// last.
pub proof fn lemma_next_slot(frame_counter: nat, frames_in_flight: nat)
    requires
        frames_in_flight >= 1,
    ensures
        frame_counter % frames_in_flight < frames_in_flight,
        (frame_counter + 1) % frames_in_flight == (if frame_counter % frames_in_flight + 1
            == frames_in_flight {
            0
        } else {
            frame_counter % frames_in_flight + 1
        }),
{
    let c = frame_counter as int;
    let n = frames_in_flight as int;
    lemma_fundamental_div_mod(c, n);
    if c % n + 1 == n {
        assert(c + 1 == (c / n + 1) * n + 0) by (nonlinear_arith)
            requires
                c == n * (c / n) + c % n,
                c % n + 1 == n,
        ;
        lemma_fundamental_div_mod_converse(c + 1, n, c / n + 1, 0);
    } else {
        assert(c + 1 == (c / n) * n + (c % n + 1)) by (nonlinear_arith)
            requires
                c == n * (c / n) + c % n,
        ;
        lemma_fundamental_div_mod_converse(c + 1, n, c / n, c % n + 1);
    }
}

/// Every step keeps the orchestrator's invariant.
pub proof fn lemma_step_keeps_invariant(model: FrameModel, event: FrameEvent)
    requires
        model.inv(),
    ensures
        model.step(event).0.inv(),
{
}

/// Whatever the caller reports, and for however long, the invariant holds
/// and no more command buffers are in flight than there are slots.
pub proof fn lemma_invariant_always_holds(frames_in_flight: u32, events: Seq<FrameEvent>)
    requires
        frames_in_flight >= 1,
    ensures
        FrameModel::initial(frames_in_flight).after(events).inv(),
        FrameModel::initial(frames_in_flight).after(events).frames_in_flight == frames_in_flight,
        FrameModel::initial(frames_in_flight).after(events).in_flight_count() <= frames_in_flight,
    decreases events.len(),
{
    if events.len() > 0 {
        lemma_invariant_always_holds(frames_in_flight, events.drop_last());
    }
}

/// A command buffer is reset only after the wait for its fence: whenever the
/// orchestrator asks for a fence to be reset, or for a command buffer to be
/// reset and recorded, the slot named is the current one and its earlier
/// submission, if any, is known to have finished.
pub proof fn lemma_reset_follows_fence_wait(model: FrameModel, event: FrameEvent)
    requires
        model.inv(),
    ensures
        model.step(event).1 matches FrameAction::ResetFence { slot } ==> slot
            == model.current_slot() && model.slots[slot as int] == SlotState::Retired,
        model.step(event).1 matches FrameAction::ResetAndRecord { slot, .. } ==> slot
            == model.current_slot() && model.slots[slot as int] == SlotState::Retired,
        model.step(event).1 matches FrameAction::Submit { slot } ==> slot == model.current_slot()
            && model.slots[slot as int] == SlotState::Reset,
{
}

/// A slot becomes in flight only by the submission of the current slot, and
/// leaves that state only by the wait for its fence: every other slot keeps
/// its state across a step.
pub proof fn lemma_step_touches_current_slot_only(model: FrameModel, event: FrameEvent, i: int)
    requires
        model.inv(),
        0 <= i < model.slots.len(),
        i != model.current_slot(),
    ensures
        model.step(event).0.slots[i] == model.slots[i],
{
}

/// The frame counter counts the frames that were submitted: a step moves it
/// on by one exactly when it ends a frame whose command buffer is in flight,
/// and leaves it alone otherwise. A frame given up because no image could be
/// acquired leaves counter and slots as they were.
pub proof fn lemma_counter_counts_submitted_frames(model: FrameModel, event: FrameEvent)
    requires
        model.inv(),
    ensures
        model.step(event).0.frame_counter == model.frame_counter + (if model.step(event).1
            == FrameAction::FrameDone && model.slots[model.current_slot() as int]
            == SlotState::InFlight {
            1nat
        } else {
            0nat
        }),
        model.stage == FrameStage::Acquiring && event == FrameEvent::AcquireOutOfDate ==> {
            let given_up = model.step(event).0;
            &&& given_up.slots == model.slots
            &&& given_up.step(FrameEvent::SwapchainRecreated).0 == model.at(FrameStage::Ready)
        },
{
}

/// While the swapchain is being rebuilt the frame loop touches nothing that
/// hangs on it: until the rebuild is reported done, no action is asked for
/// but to end the frame or to give up. And once the loop has failed, it asks
/// for nothing but to give up.
pub proof fn lemma_rebuild_is_not_interleaved(model: FrameModel, event: FrameEvent)
    ensures
        model.stage is Recreating ==> {
            ||| model.step(event).1 == FrameAction::FrameDone && event
                == FrameEvent::SwapchainRecreated
            ||| model.step(event).1 == FrameAction::Abort && model.step(event).0.stage
                == FrameStage::Failed
        },
        model.stage == FrameStage::Failed ==> model.step(event) == (model, FrameAction::Abort),
        model.step(event).1 == FrameAction::RecreateSwapchain ==> model.step(event).0.stage
            is Recreating,
{
}

/// A slot is retired by nothing but the wait for its fence: if a step takes
/// a slot out of flight, or out of recording, into the retired state, that
/// slot is the current one and the step is the return of the fence wait.
pub proof fn lemma_slot_retires_by_fence_wait_only(model: FrameModel, event: FrameEvent, i: int)
    requires
        model.inv(),
        0 <= i < model.slots.len(),
        model.slots[i] != SlotState::Retired,
        model.step(event).0.slots[i] == SlotState::Retired,
    ensures
        i == model.current_slot(),
        model.stage == FrameStage::WaitingFence,
        event == FrameEvent::FenceSignaled,
        model.step(event).1 == (FrameAction::AcquireImage { slot: model.current_slot() }),
{
}

/// No more command buffers are ever in flight than there are slots, and
/// while one is being recorded there is at least one fewer.
pub proof fn lemma_in_flight_bound(model: FrameModel)
    requires
        model.inv(),
    ensures
        model.in_flight_count() <= model.frames_in_flight,
        model.stage == FrameStage::Recording || model.stage == FrameStage::Submitting
            ==> model.in_flight_count() < model.frames_in_flight,
{
    let pred = |s: SlotState| s == SlotState::InFlight;
    model.slots.lemma_filter_len(pred);
    if model.stage == FrameStage::Recording || model.stage == FrameStage::Submitting {
        lemma_filter_misses_one(model.slots, model.current_slot() as int);
    }
}

/// A sequence with an entry that is not in flight has fewer in-flight
/// entries than it has entries.
proof fn lemma_filter_misses_one(slots: Seq<SlotState>, k: int)
    requires
        0 <= k < slots.len(),
        slots[k] != SlotState::InFlight,
    ensures
        slots.filter(|s: SlotState| s == SlotState::InFlight).len() < slots.len(),
    decreases slots.len(),
{
    let pred = |s: SlotState| s == SlotState::InFlight;
    reveal(Seq::filter);
    let front = slots.drop_last();
    front.lemma_filter_len(pred);
    if k < slots.len() - 1 {
        lemma_filter_misses_one(front, k);
    }
}

} // verus!
