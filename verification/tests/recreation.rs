use vk_triangle::recreate::{
    RecreateAction, RecreateEvent, RecreateStage, SwapchainParts, SwapchainRecreation,
};
use vk_triangle::window::is_minimized;

fn size(width: i32, height: i32) -> RecreateEvent {
    RecreateEvent::FramebufferSize { width, height }
}

#[test]
fn a_window_is_minimized_when_a_side_is_zero() {
    assert!(is_minimized((0, 0)));
    assert!(is_minimized((0, 600)));
    assert!(is_minimized((800, 0)));
    assert!(!is_minimized((800, 600)));
    assert!(!is_minimized((-1, 600)));
    assert!(!is_minimized((1, 1)));
}

#[test]
fn a_new_rebuild_is_idle() {
    assert_eq!(SwapchainRecreation::new().stage(), RecreateStage::Idle);
}

#[test]
fn a_rebuild_runs_through_its_steps_in_order() {
    let mut rebuild = SwapchainRecreation::new();
    assert_eq!(rebuild.step(RecreateEvent::Begin), RecreateAction::QueryFramebufferSize);
    assert_eq!(rebuild.step(size(1024, 768)), RecreateAction::WaitDeviceIdle);
    assert_eq!(rebuild.step(RecreateEvent::DeviceIdle), RecreateAction::DestroyFramebuffers);
    assert_eq!(
        rebuild.step(RecreateEvent::FramebuffersDestroyed),
        RecreateAction::DestroyImageViews
    );
    assert_eq!(rebuild.step(RecreateEvent::ImageViewsDestroyed), RecreateAction::DestroySwapchain);
    assert_eq!(
        rebuild.step(RecreateEvent::SwapchainDestroyed),
        RecreateAction::CreateSwapchain { width: 1024, height: 768 }
    );
    assert_eq!(rebuild.step(RecreateEvent::SwapchainCreated), RecreateAction::CreateImageViews);
    assert_eq!(rebuild.step(RecreateEvent::ImageViewsCreated), RecreateAction::CreateFramebuffers);
    assert_eq!(rebuild.step(RecreateEvent::FramebuffersCreated), RecreateAction::Finished);
    assert_eq!(rebuild.stage(), RecreateStage::Idle);
}

#[test]
fn minimized_window_blocks_on_events_and_creates_nothing() {
    let mut rebuild = SwapchainRecreation::new();
    assert_eq!(rebuild.step(RecreateEvent::Begin), RecreateAction::QueryFramebufferSize);
    for _ in 0..5 {
        assert_eq!(rebuild.step(size(0, 0)), RecreateAction::WaitEvents);
        assert_eq!(rebuild.stage(), RecreateStage::WaitingForEvents);
        assert_eq!(
            rebuild.step(RecreateEvent::EventsArrived),
            RecreateAction::QueryFramebufferSize
        );
        assert_eq!(rebuild.stage(), RecreateStage::CheckingSize);
    }
    assert_eq!(rebuild.step(size(640, 480)), RecreateAction::WaitDeviceIdle);
    rebuild.step(RecreateEvent::DeviceIdle);
    rebuild.step(RecreateEvent::FramebuffersDestroyed);
    rebuild.step(RecreateEvent::ImageViewsDestroyed);
    assert_eq!(
        rebuild.step(RecreateEvent::SwapchainDestroyed),
        RecreateAction::CreateSwapchain { width: 640, height: 480 }
    );
}

#[test]
fn one_zero_side_blocks_too() {
    let mut rebuild = SwapchainRecreation::new();
    rebuild.step(RecreateEvent::Begin);
    assert_eq!(rebuild.step(size(0, 480)), RecreateAction::WaitEvents);
    assert_eq!(rebuild.step(RecreateEvent::EventsArrived), RecreateAction::QueryFramebufferSize);
    assert_eq!(rebuild.step(size(640, 0)), RecreateAction::WaitEvents);
    assert_eq!(rebuild.step(RecreateEvent::EventsArrived), RecreateAction::QueryFramebufferSize);
    assert_eq!(rebuild.step(size(640, 480)), RecreateAction::WaitDeviceIdle);
}

#[test]
fn a_rebuild_can_follow_a_rebuild() {
    let mut rebuild = SwapchainRecreation::new();
    for width in [800, 801] {
        rebuild.step(RecreateEvent::Begin);
        rebuild.step(size(width, 600));
        rebuild.step(RecreateEvent::DeviceIdle);
        rebuild.step(RecreateEvent::FramebuffersDestroyed);
        rebuild.step(RecreateEvent::ImageViewsDestroyed);
        assert_eq!(
            rebuild.step(RecreateEvent::SwapchainDestroyed),
            RecreateAction::CreateSwapchain { width, height: 600 }
        );
        rebuild.step(RecreateEvent::SwapchainCreated);
        rebuild.step(RecreateEvent::ImageViewsCreated);
        assert_eq!(rebuild.step(RecreateEvent::FramebuffersCreated), RecreateAction::Finished);
    }
}

#[test]
fn a_failed_step_ends_the_rebuild_for_good() {
    let mut rebuild = SwapchainRecreation::new();
    rebuild.step(RecreateEvent::Begin);
    rebuild.step(size(800, 600));
    assert_eq!(rebuild.step(RecreateEvent::Failed), RecreateAction::Abort);
    assert_eq!(rebuild.stage(), RecreateStage::Failed);
    assert_eq!(rebuild.step(RecreateEvent::Begin), RecreateAction::Abort);
    assert_eq!(rebuild.step(RecreateEvent::DeviceIdle), RecreateAction::Abort);
}

#[test]
fn an_event_out_of_turn_ends_the_rebuild() {
    let mut rebuild = SwapchainRecreation::new();
    assert_eq!(rebuild.step(RecreateEvent::SwapchainDestroyed), RecreateAction::Abort);

    let mut rebuild = SwapchainRecreation::new();
    rebuild.step(RecreateEvent::Begin);
    rebuild.step(size(800, 600));
    assert_eq!(rebuild.step(RecreateEvent::SwapchainDestroyed), RecreateAction::Abort);
}

fn parts(swapchain: bool, image_views: bool, framebuffers: bool) -> SwapchainParts {
    SwapchainParts { swapchain, image_views, framebuffers }
}

#[test]
fn parts_go_dependants_first_and_come_back_in_reverse() {
    let mut rebuild = SwapchainRecreation::new();
    assert_eq!(rebuild.parts(), parts(true, true, true));
    rebuild.step(RecreateEvent::Begin);
    rebuild.step(size(0, 0));
    assert_eq!(rebuild.parts(), parts(true, true, true));
    rebuild.step(RecreateEvent::EventsArrived);
    rebuild.step(size(800, 600));
    rebuild.step(RecreateEvent::DeviceIdle);
    assert_eq!(rebuild.parts(), parts(true, true, true));
    rebuild.step(RecreateEvent::FramebuffersDestroyed);
    assert_eq!(rebuild.parts(), parts(true, true, false));
    rebuild.step(RecreateEvent::ImageViewsDestroyed);
    assert_eq!(rebuild.parts(), parts(true, false, false));
    rebuild.step(RecreateEvent::SwapchainDestroyed);
    assert_eq!(rebuild.parts(), parts(false, false, false));
    rebuild.step(RecreateEvent::SwapchainCreated);
    assert_eq!(rebuild.parts(), parts(true, false, false));
    rebuild.step(RecreateEvent::ImageViewsCreated);
    assert_eq!(rebuild.parts(), parts(true, true, false));
    assert_eq!(rebuild.step(RecreateEvent::FramebuffersCreated), RecreateAction::Finished);
    assert_eq!(rebuild.parts(), parts(true, true, true));
}

fn run_until(rebuild: &mut SwapchainRecreation, events: &[RecreateEvent]) {
    for event in events {
        assert_ne!(rebuild.step(*event), RecreateAction::Abort);
    }
}

#[test]
fn a_failed_rebuild_keeps_what_stood_when_it_failed() {
    let to_creation = [
        RecreateEvent::Begin,
        size(800, 600),
        RecreateEvent::DeviceIdle,
        RecreateEvent::FramebuffersDestroyed,
        RecreateEvent::ImageViewsDestroyed,
        RecreateEvent::SwapchainDestroyed,
    ];

    // The wait for the idle device fails: nothing was touched.
    let mut rebuild = SwapchainRecreation::new();
    run_until(&mut rebuild, &to_creation[..2]);
    assert_eq!(rebuild.step(RecreateEvent::Failed), RecreateAction::Abort);
    assert_eq!(rebuild.parts(), parts(true, true, true));

    // The swapchain cannot be created: nothing stands.
    let mut rebuild = SwapchainRecreation::new();
    run_until(&mut rebuild, &to_creation);
    assert_eq!(rebuild.step(RecreateEvent::Failed), RecreateAction::Abort);
    assert_eq!(rebuild.parts(), parts(false, false, false));
    assert_eq!(rebuild.step(RecreateEvent::Begin), RecreateAction::Abort);
    assert_eq!(rebuild.parts(), parts(false, false, false));

    // The image views cannot be created: the swapchain stands alone.
    let mut rebuild = SwapchainRecreation::new();
    run_until(&mut rebuild, &to_creation);
    run_until(&mut rebuild, &[RecreateEvent::SwapchainCreated]);
    assert_eq!(rebuild.step(RecreateEvent::Failed), RecreateAction::Abort);
    assert_eq!(rebuild.parts(), parts(true, false, false));

    // The framebuffers cannot be created: swapchain and image views stand.
    let mut rebuild = SwapchainRecreation::new();
    run_until(&mut rebuild, &to_creation);
    run_until(&mut rebuild, &[RecreateEvent::SwapchainCreated, RecreateEvent::ImageViewsCreated]);
    assert_eq!(rebuild.step(RecreateEvent::Failed), RecreateAction::Abort);
    assert_eq!(rebuild.parts(), parts(true, true, false));
}
