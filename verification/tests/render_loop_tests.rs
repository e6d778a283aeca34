use vulkmini::input::{ElementState, VirtualKeyCode};
use vulkmini::render_loop::{
    AcquireOutcome, FlushOutcome, FlushStep, FrameStep, LoopAction, LoopEvent, RecreateOutcome,
    RenderLoop,
};

fn key(k: VirtualKeyCode, st: ElementState) -> LoopEvent {
    LoopEvent::KeyboardInput { keycode: Some(k), state: st }
}

#[test]
fn new_loop_is_idle() {
    let l = RenderLoop::new();
    assert!(!l.recreate_swapchain);
    assert_eq!(l.start_frame(), FrameStep::AcquireImage);
    assert!(!l.input_state.forward);
}

#[test]
fn close_and_escape_exit() {
    let mut l = RenderLoop::new();
    assert_eq!(l.on_event(LoopEvent::CloseRequested), LoopAction::Exit);
    assert_eq!(l.on_event(key(VirtualKeyCode::Escape, ElementState::Pressed)), LoopAction::Exit);
    assert_eq!(l.on_event(key(VirtualKeyCode::Escape, ElementState::Released)), LoopAction::Continue);
    assert_eq!(l, RenderLoop::new());
}

#[test]
fn key_events_update_controls() {
    let mut l = RenderLoop::new();
    assert_eq!(l.on_event(key(VirtualKeyCode::Up, ElementState::Pressed)), LoopAction::Continue);
    assert!(l.input_state.forward);
    assert!(!l.recreate_swapchain);
    assert_eq!(l.on_event(key(VirtualKeyCode::Up, ElementState::Released)), LoopAction::Continue);
    assert!(!l.input_state.forward);
    let before = l;
    assert_eq!(
        l.on_event(LoopEvent::KeyboardInput { keycode: None, state: ElementState::Pressed }),
        LoopAction::Continue
    );
    assert_eq!(l, before);
}

#[test]
fn other_events() {
    let mut l = RenderLoop::new();
    assert_eq!(l.on_event(LoopEvent::MouseMotion), LoopAction::RotateCamera);
    assert_eq!(l.on_event(LoopEvent::RedrawEventsCleared), LoopAction::RenderFrame);
    assert_eq!(l.on_event(LoopEvent::Other), LoopAction::Continue);
    assert_eq!(l, RenderLoop::new());
}

#[test]
fn resize_leads_to_recreation() {
    let mut l = RenderLoop::new();
    assert_eq!(l.on_event(LoopEvent::Resized), LoopAction::Continue);
    assert!(l.recreate_swapchain);
    assert_eq!(l.start_frame(), FrameStep::RecreateSwapchain);
    assert_eq!(l.after_recreate(RecreateOutcome::Recreated), FrameStep::AcquireImage);
    assert!(!l.recreate_swapchain);
    assert_eq!(l.start_frame(), FrameStep::AcquireImage);
}

#[test]
fn unsupported_extent_skips_and_keeps_recreation_pending() {
    let mut l = RenderLoop::new();
    l.on_event(LoopEvent::Resized);
    assert_eq!(l.after_recreate(RecreateOutcome::ImageExtentNotSupported), FrameStep::SkipFrame);
    assert!(l.recreate_swapchain);
    assert_eq!(l.start_frame(), FrameStep::RecreateSwapchain);
}

#[test]
fn failed_recreation_aborts() {
    let mut l = RenderLoop::new();
    l.on_event(LoopEvent::Resized);
    assert_eq!(l.after_recreate(RecreateOutcome::Failed), FrameStep::Abort);
    assert!(l.recreate_swapchain);
}

#[test]
fn acquire_outcomes() {
    let mut l = RenderLoop::new();
    assert_eq!(
        l.after_acquire(AcquireOutcome::Acquired { suboptimal: false }),
        FrameStep::RecordAndSubmit
    );
    assert!(!l.recreate_swapchain);
    assert_eq!(
        l.after_acquire(AcquireOutcome::Acquired { suboptimal: true }),
        FrameStep::RecordAndSubmit
    );
    assert!(l.recreate_swapchain);

    let mut m = RenderLoop::new();
    assert_eq!(m.after_acquire(AcquireOutcome::OutOfDate), FrameStep::SkipFrame);
    assert!(m.recreate_swapchain);

    let mut n = RenderLoop::new();
    assert_eq!(n.after_acquire(AcquireOutcome::Failed), FrameStep::Abort);
    assert!(!n.recreate_swapchain);
}

#[test]
fn acquire_keeps_pending_recreation() {
    let mut l = RenderLoop::new();
    l.on_event(LoopEvent::Resized);
    l.after_acquire(AcquireOutcome::Acquired { suboptimal: false });
    assert!(l.recreate_swapchain);
}

#[test]
fn flush_outcomes() {
    let mut l = RenderLoop::new();
    assert_eq!(l.after_flush(FlushOutcome::Flushed), FlushStep::KeepFuture);
    assert!(!l.recreate_swapchain);
    assert_eq!(l.after_flush(FlushOutcome::Failed), FlushStep::ReportAndReset);
    assert!(!l.recreate_swapchain);
    assert_eq!(l.after_flush(FlushOutcome::OutOfDate), FlushStep::ResetFuture);
    assert!(l.recreate_swapchain);
    assert_eq!(l.start_frame(), FrameStep::RecreateSwapchain);
}
