use vk_triangle::frame::{
    plan_acquire, plan_fence_wait, plan_present, plan_submit, present_decision, AcquirePlan,
    FenceWaitPlan, FrameAction, FrameEvent, FrameOrchestrator, FrameStage, PresentDecision,
    PresentOutcome, PresentPlan, Semaphore, SlotState, SubmitPlan, MAX_FRAMES_IN_FLIGHT,
    NO_TIMEOUT,
};
use vk_triangle::render::PIPELINE_STAGE_COLOR_ATTACHMENT_OUTPUT_BIT;

fn presented(outcome: PresentOutcome, resize_pending: bool) -> FrameEvent {
    FrameEvent::Presented { outcome, resize_pending }
}

/// Drives one frame to the present call and returns the slot it used.
fn run_to_present(frames: &mut FrameOrchestrator, image_index: u32) -> u32 {
    let slot = frames.current_frame();
    assert_eq!(frames.step(FrameEvent::Begin), FrameAction::WaitForFence { slot });
    assert_eq!(frames.step(FrameEvent::FenceSignaled), FrameAction::AcquireImage { slot });
    assert_eq!(
        frames.step(FrameEvent::ImageAcquired { image_index }),
        FrameAction::UpdateUniforms { slot }
    );
    assert_eq!(frames.step(FrameEvent::UniformsWritten), FrameAction::ResetFence { slot });
    assert_eq!(
        frames.step(FrameEvent::FenceReset),
        FrameAction::ResetAndRecord { slot, image_index }
    );
    assert_eq!(frames.step(FrameEvent::CommandsRecorded), FrameAction::Submit { slot });
    assert_eq!(frames.step(FrameEvent::Submitted), FrameAction::Present { slot, image_index });
    slot
}

#[test]
fn two_frames_are_in_flight_by_default() {
    assert_eq!(MAX_FRAMES_IN_FLIGHT, 2);
}

#[test]
fn a_new_orchestrator_is_ready_on_slot_zero_with_nothing_in_flight() {
    let frames = FrameOrchestrator::new(3);
    assert_eq!(frames.frames_in_flight(), 3);
    assert_eq!(frames.current_frame(), 0);
    assert_eq!(frames.stage(), FrameStage::Ready);
    assert_eq!(frames.in_flight(), 0);
    for slot in 0..3 {
        assert_eq!(frames.slot_state(slot), SlotState::Retired);
    }
}

#[test]
fn a_frame_runs_through_its_steps_in_order() {
    let mut frames = FrameOrchestrator::new(2);
    let slot = run_to_present(&mut frames, 1);
    assert_eq!(slot, 0);
    assert_eq!(frames.stage(), FrameStage::Presenting);
    assert_eq!(
        frames.step(presented(PresentOutcome::Optimal, false)),
        FrameAction::FrameDone
    );
    assert_eq!(frames.stage(), FrameStage::Ready);
    assert_eq!(frames.current_frame(), 1);
}

#[test]
fn slots_are_used_round_robin() {
    let mut frames = FrameOrchestrator::new(3);
    let mut used = Vec::new();
    for frame in 0..7u32 {
        used.push(run_to_present(&mut frames, frame % 4));
        assert_eq!(
            frames.step(presented(PresentOutcome::Optimal, false)),
            FrameAction::FrameDone
        );
    }
    assert_eq!(used, vec![0, 1, 2, 0, 1, 2, 0]);
}

#[test]
fn a_single_slot_is_used_again_and_again() {
    let mut frames = FrameOrchestrator::new(1);
    for _ in 0..3 {
        assert_eq!(run_to_present(&mut frames, 0), 0);
        assert_eq!(
            frames.step(presented(PresentOutcome::Optimal, false)),
            FrameAction::FrameDone
        );
        assert_eq!(frames.current_frame(), 0);
    }
}

#[test]
fn slot_states_follow_the_fence() {
    let mut frames = FrameOrchestrator::new(2);
    frames.step(FrameEvent::Begin);
    frames.step(FrameEvent::FenceSignaled);
    assert_eq!(frames.slot_state(0), SlotState::Retired);
    frames.step(FrameEvent::ImageAcquired { image_index: 0 });
    frames.step(FrameEvent::UniformsWritten);
    assert_eq!(frames.slot_state(0), SlotState::Retired);
    frames.step(FrameEvent::FenceReset);
    assert_eq!(frames.slot_state(0), SlotState::Reset);
    frames.step(FrameEvent::CommandsRecorded);
    assert_eq!(frames.slot_state(0), SlotState::Reset);
    frames.step(FrameEvent::Submitted);
    assert_eq!(frames.slot_state(0), SlotState::InFlight);
    assert_eq!(frames.slot_state(1), SlotState::Retired);
}

#[test]
fn never_more_in_flight_than_slots() {
    let mut frames = FrameOrchestrator::new(2);
    let mut most = 0;
    for frame in 0..10u32 {
        frames.step(FrameEvent::Begin);
        most = most.max(frames.in_flight());
        frames.step(FrameEvent::FenceSignaled);
        most = most.max(frames.in_flight());
        frames.step(FrameEvent::ImageAcquired { image_index: frame % 3 });
        frames.step(FrameEvent::UniformsWritten);
        let reset = frames.step(FrameEvent::FenceReset);
        // The buffer that is reset is not in flight, so one slot at least is free.
        assert!(matches!(reset, FrameAction::ResetAndRecord { .. }));
        assert!(frames.in_flight() < 2);
        frames.step(FrameEvent::CommandsRecorded);
        frames.step(FrameEvent::Submitted);
        most = most.max(frames.in_flight());
        frames.step(presented(PresentOutcome::Optimal, false));
        most = most.max(frames.in_flight());
        assert!(frames.in_flight() <= 2);
    }
    assert_eq!(most, 2);
}

#[test]
fn the_wait_for_a_fence_retires_its_slot() {
    let mut frames = FrameOrchestrator::new(2);
    for _ in 0..2 {
        run_to_present(&mut frames, 0);
        frames.step(presented(PresentOutcome::Optimal, false));
    }
    assert_eq!(frames.in_flight(), 2);
    assert_eq!(frames.slot_state(0), SlotState::InFlight);
    assert_eq!(frames.step(FrameEvent::Begin), FrameAction::WaitForFence { slot: 0 });
    assert_eq!(frames.slot_state(0), SlotState::InFlight);
    assert_eq!(frames.step(FrameEvent::FenceSignaled), FrameAction::AcquireImage { slot: 0 });
    assert_eq!(frames.slot_state(0), SlotState::Retired);
    assert_eq!(frames.slot_state(1), SlotState::InFlight);
    assert_eq!(frames.in_flight(), 1);
}

#[test]
fn out_of_date_on_acquire_recreates_and_keeps_the_slot() {
    let mut frames = FrameOrchestrator::new(2);
    frames.step(FrameEvent::Begin);
    frames.step(FrameEvent::FenceSignaled);
    assert_eq!(frames.step(FrameEvent::AcquireOutOfDate), FrameAction::RecreateSwapchain);
    assert_eq!(frames.stage(), FrameStage::Recreating { advance: false });
    assert_eq!(frames.slot_state(0), SlotState::Retired);
    assert_eq!(frames.step(FrameEvent::SwapchainRecreated), FrameAction::FrameDone);
    assert_eq!(frames.current_frame(), 0);
    assert_eq!(frames.step(FrameEvent::Begin), FrameAction::WaitForFence { slot: 0 });
}

#[test]
fn suboptimal_present_recreates_and_moves_on() {
    let mut frames = FrameOrchestrator::new(2);
    run_to_present(&mut frames, 0);
    assert_eq!(
        frames.step(presented(PresentOutcome::Suboptimal, false)),
        FrameAction::RecreateSwapchain
    );
    assert_eq!(frames.stage(), FrameStage::Recreating { advance: true });
    assert_eq!(frames.step(FrameEvent::SwapchainRecreated), FrameAction::FrameDone);
    assert_eq!(frames.current_frame(), 1);
}

#[test]
fn pending_resize_recreates_after_a_good_present() {
    let mut frames = FrameOrchestrator::new(2);
    run_to_present(&mut frames, 0);
    assert_eq!(
        frames.step(presented(PresentOutcome::Optimal, true)),
        FrameAction::RecreateSwapchain
    );
    assert_eq!(frames.step(FrameEvent::SwapchainRecreated), FrameAction::FrameDone);
    assert_eq!(frames.current_frame(), 1);
}

#[test]
fn failed_present_aborts_the_loop() {
    let mut frames = FrameOrchestrator::new(2);
    run_to_present(&mut frames, 0);
    assert_eq!(frames.step(presented(PresentOutcome::Failed, false)), FrameAction::Abort);
    assert_eq!(frames.stage(), FrameStage::Failed);
    assert_eq!(frames.step(FrameEvent::Begin), FrameAction::Abort);
    assert_eq!(frames.stage(), FrameStage::Failed);
}

#[test]
fn failed_present_aborts_even_with_a_resize_pending() {
    let mut frames = FrameOrchestrator::new(2);
    run_to_present(&mut frames, 0);
    assert_eq!(frames.step(presented(PresentOutcome::Failed, true)), FrameAction::Abort);
    assert_eq!(frames.stage(), FrameStage::Failed);
    assert_eq!(frames.current_frame(), 0);
    assert_eq!(frames.step(FrameEvent::SwapchainRecreated), FrameAction::Abort);
}

#[test]
fn out_of_date_present_recreates_and_moves_on() {
    for resize_pending in [false, true] {
        let mut frames = FrameOrchestrator::new(2);
        run_to_present(&mut frames, 0);
        assert_eq!(
            frames.step(presented(PresentOutcome::OutOfDate, resize_pending)),
            FrameAction::RecreateSwapchain
        );
        assert_eq!(frames.step(FrameEvent::SwapchainRecreated), FrameAction::FrameDone);
        assert_eq!(frames.current_frame(), 1);
    }
}

#[test]
fn present_decisions() {
    assert_eq!(present_decision(PresentOutcome::Optimal, false), PresentDecision::Continue);
    assert_eq!(present_decision(PresentOutcome::Optimal, true), PresentDecision::Recreate);
    assert_eq!(present_decision(PresentOutcome::Suboptimal, false), PresentDecision::Recreate);
    assert_eq!(present_decision(PresentOutcome::Suboptimal, true), PresentDecision::Recreate);
    assert_eq!(present_decision(PresentOutcome::OutOfDate, false), PresentDecision::Recreate);
    assert_eq!(present_decision(PresentOutcome::OutOfDate, true), PresentDecision::Recreate);
    assert_eq!(present_decision(PresentOutcome::Failed, false), PresentDecision::Fail);
    assert_eq!(present_decision(PresentOutcome::Failed, true), PresentDecision::Fail);
}

#[test]
fn a_failure_at_any_step_aborts() {
    let steps = [
        FrameEvent::Begin,
        FrameEvent::FenceSignaled,
        FrameEvent::ImageAcquired { image_index: 0 },
        FrameEvent::UniformsWritten,
        FrameEvent::FenceReset,
        FrameEvent::CommandsRecorded,
        FrameEvent::Submitted,
    ];
    for done in 0..=steps.len() {
        let mut frames = FrameOrchestrator::new(2);
        for event in &steps[..done] {
            assert_ne!(frames.step(*event), FrameAction::Abort);
        }
        assert_eq!(frames.step(FrameEvent::Failed), FrameAction::Abort);
        assert_eq!(frames.stage(), FrameStage::Failed);
    }
}

#[test]
fn a_failed_rebuild_aborts() {
    let mut frames = FrameOrchestrator::new(2);
    frames.step(FrameEvent::Begin);
    frames.step(FrameEvent::FenceSignaled);
    frames.step(FrameEvent::AcquireOutOfDate);
    assert_eq!(frames.step(FrameEvent::Failed), FrameAction::Abort);
}

#[test]
fn an_event_out_of_turn_aborts() {
    let mut frames = FrameOrchestrator::new(2);
    assert_eq!(frames.step(FrameEvent::Submitted), FrameAction::Abort);

    let mut frames = FrameOrchestrator::new(2);
    frames.step(FrameEvent::Begin);
    assert_eq!(frames.step(FrameEvent::FenceReset), FrameAction::Abort);

    let mut frames = FrameOrchestrator::new(2);
    frames.step(FrameEvent::Begin);
    frames.step(FrameEvent::FenceSignaled);
    frames.step(FrameEvent::ImageAcquired { image_index: 0 });
    assert_eq!(frames.step(FrameEvent::AcquireOutOfDate), FrameAction::Abort);
}

#[test]
fn the_acquired_image_is_the_one_recorded_and_presented() {
    let mut frames = FrameOrchestrator::new(2);
    run_to_present(&mut frames, 2);
    frames.step(presented(PresentOutcome::Optimal, false));
    let slot = run_to_present(&mut frames, 0);
    assert_eq!(slot, 1);
}

#[test]
fn waits_have_no_timeout() {
    assert_eq!(NO_TIMEOUT, u64::MAX);
    assert_eq!(plan_fence_wait(1), FenceWaitPlan { fence: 1, timeout: u64::MAX });
    assert_eq!(
        plan_acquire(1),
        AcquirePlan { timeout: u64::MAX, signal_semaphore: Semaphore::ImageAvailable { slot: 1 } }
    );
}

#[test]
fn submission_waits_for_the_image_and_signals_semaphore_and_fence() {
    assert_eq!(
        plan_submit(1),
        SubmitPlan {
            command_buffer: 1,
            wait_semaphore: Semaphore::ImageAvailable { slot: 1 },
            wait_stage_mask: PIPELINE_STAGE_COLOR_ATTACHMENT_OUTPUT_BIT,
            signal_semaphore: Semaphore::RenderFinished { slot: 1 },
            signal_fence: 1,
        }
    );
}

#[test]
fn presentation_waits_for_the_rendering() {
    assert_eq!(
        plan_present(0, 2),
        PresentPlan { wait_semaphore: Semaphore::RenderFinished { slot: 0 }, image_index: 2 }
    );
}

#[test]
fn the_work_of_a_frame_is_chained_within_its_slot() {
    for slot in 0..3 {
        assert_eq!(plan_submit(slot).wait_semaphore, plan_acquire(slot).signal_semaphore);
        assert_eq!(plan_present(slot, 0).wait_semaphore, plan_submit(slot).signal_semaphore);
        assert_eq!(plan_fence_wait(slot).fence, plan_submit(slot).signal_fence);
        assert_ne!(plan_submit(slot).signal_semaphore, plan_submit(slot + 1).signal_semaphore);
        assert_ne!(plan_acquire(slot).signal_semaphore, plan_acquire(slot + 1).signal_semaphore);
    }
}
