use vstd::prelude::*;

use crate::input::{ElementState, InputState, VirtualKeyCode};

verus! {

/// An event of the window system, as far as the render loop tells events
/// apart.
#[derive(Clone, Copy, Debug, PartialEq, Eq, Structural)]
pub enum LoopEvent {
    /// The window was asked to close.
    CloseRequested,
    /// The window changed size.
    Resized,
    /// The mouse moved; its motion stays with the application.
    MouseMotion,
    /// A key went down or up; `keycode` is absent when the window system
    /// could not name the key.
    KeyboardInput { keycode: Option<VirtualKeyCode>, state: ElementState },
    /// All pending events are handled: time to draw a frame.
    RedrawEventsCleared,
    /// Any other event.
    Other,
}

/// What the application does after an event.
#[derive(Clone, Copy, Debug, PartialEq, Eq, Structural)]
pub enum LoopAction {
    /// Nothing more.
    Continue,
    /// Leave the event loop.
    Exit,
    /// Turn the camera by the mouse motion of the event.
    RotateCamera,
    /// Draw a frame, starting with `RenderLoop::start_frame`.
    RenderFrame,
}

/// The next step of drawing a frame.
#[derive(Clone, Copy, Debug, PartialEq, Eq, Structural)]
pub enum FrameStep {
    /// Recreate the swapchain for the window's current size, then report
    /// with `RenderLoop::after_recreate`.
    RecreateSwapchain,
    /// Acquire the next swapchain image, then report with
    /// `RenderLoop::after_acquire`.
    AcquireImage,
    /// Record and submit the frame's commands, present, flush, then report
    /// with `RenderLoop::after_flush`.
    RecordAndSubmit,
    /// Give up on this frame; the next one tries again.
    SkipFrame,
    /// Stop with the error of the last step.
    Abort,
}

/// How recreating the swapchain went.
#[derive(Clone, Copy, Debug, PartialEq, Eq, Structural)]
pub enum RecreateOutcome {
    Recreated,
    /// The window's size is not one the surface accepts right now (for
    /// instance while it is minimised).
    ImageExtentNotSupported,
    Failed,
}

/// How acquiring the next swapchain image went.
#[derive(Clone, Copy, Debug, PartialEq, Eq, Structural)]
pub enum AcquireOutcome {
    /// An image is ready; `suboptimal` when the swapchain no longer matches
    /// the surface exactly.
    Acquired { suboptimal: bool },
    OutOfDate,
    Failed,
}

/// How presenting and flushing the frame went.
#[derive(Clone, Copy, Debug, PartialEq, Eq, Structural)]
pub enum FlushOutcome {
    Flushed,
    OutOfDate,
    Failed,
}

/// What to do with the future that tracks the end of the last frame.
#[derive(Clone, Copy, Debug, PartialEq, Eq, Structural)]
pub enum FlushStep {
    /// Keep the flushed future.
    KeepFuture,
    /// Replace it by a future that is already done.
    ResetFuture,
    /// Report the error, then replace it by a future that is already done.
    ReportAndReset,
}

/// The state that the render loop keeps between events: the held
/// controls, and whether the swapchain must be recreated before the next
/// image is acquired.
#[derive(Clone, Copy, Debug, PartialEq, Eq, Structural)]
pub struct RenderLoop {
    pub input_state: InputState,
    pub recreate_swapchain: bool,
}

impl RenderLoop {
    /// The state after an event, and what the application does next.
    pub open spec fn after_event(self, event: LoopEvent) -> (RenderLoop, LoopAction) {
        match event {
            LoopEvent::CloseRequested => (self, LoopAction::Exit),
            LoopEvent::Resized => (RenderLoop { recreate_swapchain: true, ..self }, LoopAction::Continue),
            LoopEvent::MouseMotion => (self, LoopAction::RotateCamera),
            LoopEvent::KeyboardInput { keycode, state } => match keycode {
                Some(key) => (
                    RenderLoop { input_state: self.input_state.after_key(key, state), ..self },
                    if key == VirtualKeyCode::Escape && state == ElementState::Pressed {
                        LoopAction::Exit
                    } else {
                        LoopAction::Continue
                    },
                ),
                None => (self, LoopAction::Continue),
            },
            LoopEvent::RedrawEventsCleared => (self, LoopAction::RenderFrame),
            LoopEvent::Other => (self, LoopAction::Continue),
        }
    }

    /// The first step of a frame.
    pub open spec fn first_step(self) -> FrameStep {
        if self.recreate_swapchain {
            FrameStep::RecreateSwapchain
        } else {
            FrameStep::AcquireImage
        }
    }

    /// The state after recreating the swapchain, and the next step.
    pub open spec fn after_recreate_spec(self, outcome: RecreateOutcome) -> (RenderLoop, FrameStep) {
        match outcome {
            RecreateOutcome::Recreated => (
                RenderLoop { recreate_swapchain: false, ..self },
                FrameStep::AcquireImage,
            ),
            RecreateOutcome::ImageExtentNotSupported => (self, FrameStep::SkipFrame),
            RecreateOutcome::Failed => (self, FrameStep::Abort),
        }
    }

    /// The state after acquiring an image, and the next step.
    pub open spec fn after_acquire_spec(self, outcome: AcquireOutcome) -> (RenderLoop, FrameStep) {
        match outcome {
            AcquireOutcome::Acquired { suboptimal } => (
                RenderLoop { recreate_swapchain: self.recreate_swapchain || suboptimal, ..self },
                FrameStep::RecordAndSubmit,
            ),
            AcquireOutcome::OutOfDate => (
                RenderLoop { recreate_swapchain: true, ..self },
                FrameStep::SkipFrame,
            ),
            AcquireOutcome::Failed => (self, FrameStep::Abort),
        }
    }

    /// The state after flushing a frame, and what becomes of its future.
    pub open spec fn after_flush_spec(self, outcome: FlushOutcome) -> (RenderLoop, FlushStep) {
        match outcome {
            FlushOutcome::Flushed => (self, FlushStep::KeepFuture),
            FlushOutcome::OutOfDate => (
                RenderLoop { recreate_swapchain: true, ..self },
                FlushStep::ResetFuture,
            ),
            FlushOutcome::Failed => (self, FlushStep::ReportAndReset),
        }
    }

    /// A loop with no control held and no recreation pending.
    pub fn new() -> (r: RenderLoop)
        ensures
            r.input_state.is_idle(),
            !r.input_state.forward,
            !r.input_state.backward,
            !r.input_state.strafe_left,
            !r.input_state.strafe_right,
            !r.input_state.move_up,
            !r.input_state.move_down,
            !r.input_state.light_left,
            !r.input_state.light_right,
            !r.input_state.light_up,
            !r.input_state.light_down,
            !r.input_state.light_forward,
            !r.input_state.light_backward,
            !r.input_state.light_inc_intensity,
            !r.input_state.light_dec_intensity,
            !r.recreate_swapchain,
    {
        RenderLoop { input_state: InputState::default(), recreate_swapchain: false }
    }

    /// Handles one event. Closing the window, or pressing Escape, exits;
    /// a resize marks the swapchain for recreation; a key event updates
    /// the held controls; mouse motion turns the camera; the end of the
    /// event batch draws a frame.
    pub fn on_event(&mut self, event: LoopEvent) -> (action: LoopAction)
        ensures
            (*final(self), action) == old(self).after_event(event),
    {
        match event {
            LoopEvent::CloseRequested => LoopAction::Exit,
            LoopEvent::Resized => {
                self.recreate_swapchain = true;
                LoopAction::Continue
            },
            LoopEvent::MouseMotion => LoopAction::RotateCamera,
            LoopEvent::KeyboardInput { keycode, state } => match keycode {
                Some(key) => {
                    self.input_state.update(key, state);
                    let is_escape = match key {
                        VirtualKeyCode::Escape => true,
                        _ => false,
                    };
                    let is_pressed = match state {
                        ElementState::Pressed => true,
                        ElementState::Released => false,
                    };
                    if is_escape && is_pressed {
                        LoopAction::Exit
                    } else {
                        LoopAction::Continue
                    }
                },
                None => LoopAction::Continue,
            },
            LoopEvent::RedrawEventsCleared => LoopAction::RenderFrame,
            LoopEvent::Other => LoopAction::Continue,
        }
    }

    /// The first step of a frame: recreate the swapchain if that is
    /// pending, else acquire an image.
    pub fn start_frame(&self) -> (step: FrameStep)
        ensures
            step == self.first_step(),
    {
        if self.recreate_swapchain {
            FrameStep::RecreateSwapchain
        } else {
            FrameStep::AcquireImage
        }
    }

    /// After recreating the swapchain: on success the recreation is done
    /// and an image is acquired; a size the surface does not accept skips
    /// the frame with the recreation still pending; a failure aborts.
    pub fn after_recreate(&mut self, outcome: RecreateOutcome) -> (step: FrameStep)
        ensures
            (*final(self), step) == old(self).after_recreate_spec(outcome),
    {
        match outcome {
            RecreateOutcome::Recreated => {
                self.recreate_swapchain = false;
                FrameStep::AcquireImage
            },
            RecreateOutcome::ImageExtentNotSupported => FrameStep::SkipFrame,
            RecreateOutcome::Failed => FrameStep::Abort,
        }
    }

    /// After acquiring an image: the frame is recorded, and a suboptimal
    /// swapchain is marked for recreation; an out-of-date swapchain is
    /// marked and the frame skipped; a failure aborts.
    pub fn after_acquire(&mut self, outcome: AcquireOutcome) -> (step: FrameStep)
        ensures
            (*final(self), step) == old(self).after_acquire_spec(outcome),
    {
        match outcome {
            AcquireOutcome::Acquired { suboptimal } => {
                if suboptimal {
                    self.recreate_swapchain = true;
                }
                FrameStep::RecordAndSubmit
            },
            AcquireOutcome::OutOfDate => {
                self.recreate_swapchain = true;
                FrameStep::SkipFrame
            },
            AcquireOutcome::Failed => FrameStep::Abort,
        }
    }

    /// After presenting and flushing: a flushed future is kept; an
    /// out-of-date swapchain is marked for recreation and the future
    /// reset; any other failure is reported and the future reset.
    pub fn after_flush(&mut self, outcome: FlushOutcome) -> (step: FlushStep)
        ensures
            (*final(self), step) == old(self).after_flush_spec(outcome),
    {
        match outcome {
            FlushOutcome::Flushed => FlushStep::KeepFuture,
            FlushOutcome::OutOfDate => {
                self.recreate_swapchain = true;
                FlushStep::ResetFuture
            },
            FlushOutcome::Failed => FlushStep::ReportAndReset,
        }
    }
}

/// A pending swapchain recreation is only ever cleared by a successful
/// recreation: no event, no acquisition, no flush and no failed
/// recreation drops it.
pub proof fn lemma_pending_recreation_kept_until_done(
    s: RenderLoop,
    event: LoopEvent,
    recreated: RecreateOutcome,
    acquired: AcquireOutcome,
    flushed: FlushOutcome,
)
    requires
        s.recreate_swapchain,
    ensures
        s.after_event(event).0.recreate_swapchain,
        s.after_acquire_spec(acquired).0.recreate_swapchain,
        s.after_flush_spec(flushed).0.recreate_swapchain,
        recreated != RecreateOutcome::Recreated ==> s.after_recreate_spec(
            recreated,
        ).0.recreate_swapchain,
        !s.after_recreate_spec(RecreateOutcome::Recreated).0.recreate_swapchain,
{
}

/// Whatever shows that the swapchain no longer fits the window (a resize,
/// a suboptimal or out-of-date image, an out-of-date flush) makes the next
/// frame start by recreating the swapchain.
pub proof fn lemma_stale_swapchain_recreated_next_frame(s: RenderLoop)
    ensures
        s.after_event(LoopEvent::Resized).0.first_step() == FrameStep::RecreateSwapchain,
        s.after_acquire_spec(AcquireOutcome::Acquired { suboptimal: true }).0.first_step()
            == FrameStep::RecreateSwapchain,
        s.after_acquire_spec(AcquireOutcome::OutOfDate).0.first_step()
            == FrameStep::RecreateSwapchain,
        s.after_flush_spec(FlushOutcome::OutOfDate).0.first_step()
            == FrameStep::RecreateSwapchain,
{
}

/// The loop exits on exactly two events: the window is asked to close, or
/// Escape is pressed.
pub proof fn lemma_exit_only_on_close_or_escape(s: RenderLoop, event: LoopEvent)
    ensures
        (s.after_event(event).1 == LoopAction::Exit) <==> (event == LoopEvent::CloseRequested
            || event == LoopEvent::KeyboardInput {
            keycode: Some(VirtualKeyCode::Escape),
            state: ElementState::Pressed,
        }),
{
}

/// Only key events change the held controls, and key events never change
/// whether a recreation is pending.
pub proof fn lemma_event_kinds_touch_separate_state(s: RenderLoop, event: LoopEvent)
    ensures
        !(event is KeyboardInput) ==> s.after_event(event).0.input_state == s.input_state,
        event is KeyboardInput ==> s.after_event(event).0.recreate_swapchain
            == s.recreate_swapchain,
{
}

/// What each kind of event does, for every loop state: a key event with a
/// key is always recorded in the held controls as `after_key` says, whether
/// or not a recreation is pending, and leaves the recreation flag alone; a
/// key event without a key changes nothing; a resize marks the swapchain
/// for recreation and nothing else; mouse motion turns the camera and the
/// end of an event batch draws a frame, both changing nothing.
pub proof fn lemma_event_effects(s: RenderLoop, event: LoopEvent)
    ensures
        event matches LoopEvent::KeyboardInput { keycode: Some(key), state } ==> {
            &&& s.after_event(event).0.input_state == s.input_state.after_key(key, state)
            &&& s.after_event(event).0.recreate_swapchain == s.recreate_swapchain
        },
        event matches LoopEvent::KeyboardInput { keycode: None, state: _ } ==> s.after_event(
            event,
        ).0 == s,
        event == LoopEvent::Resized ==> s.after_event(event).0.recreate_swapchain
            && s.after_event(event).0.input_state == s.input_state,
        (s.after_event(event).1 == LoopAction::RotateCamera) <==> event == LoopEvent::MouseMotion,
        (s.after_event(event).1 == LoopAction::RenderFrame) <==> event
            == LoopEvent::RedrawEventsCleared,
        !(event is KeyboardInput) && event != LoopEvent::Resized ==> s.after_event(event).0 == s,
{
}

/// What recreating the swapchain leads to, for every loop state: the frame
/// goes on to acquire an image exactly when the recreation succeeded, is
/// skipped exactly when the window's size is not accepted, and aborts
/// exactly on failure; the recreation stays pending unless it succeeded;
/// the held controls are not touched.
pub proof fn lemma_recreate_outcomes(s: RenderLoop, outcome: RecreateOutcome)
    ensures
        (s.after_recreate_spec(outcome).1 == FrameStep::AcquireImage) <==> outcome
            == RecreateOutcome::Recreated,
        (s.after_recreate_spec(outcome).1 == FrameStep::SkipFrame) <==> outcome
            == RecreateOutcome::ImageExtentNotSupported,
        (s.after_recreate_spec(outcome).1 == FrameStep::Abort) <==> outcome
            == RecreateOutcome::Failed,
        s.after_recreate_spec(outcome).0.recreate_swapchain == (s.recreate_swapchain && outcome
            != RecreateOutcome::Recreated),
        s.after_recreate_spec(outcome).0.input_state == s.input_state,
{
}

/// What acquiring an image leads to, for every loop state: the frame is
/// recorded exactly when an image was acquired, skipped exactly when the
/// swapchain is out of date, aborted exactly on failure; a recreation is
/// pending afterwards exactly when it was before, or the image was
/// suboptimal, or the swapchain out of date; the held controls are not
/// touched.
pub proof fn lemma_acquire_outcomes(s: RenderLoop, outcome: AcquireOutcome)
    ensures
        (s.after_acquire_spec(outcome).1 == FrameStep::RecordAndSubmit) <==> outcome is Acquired,
        (s.after_acquire_spec(outcome).1 == FrameStep::SkipFrame) <==> outcome
            == AcquireOutcome::OutOfDate,
        (s.after_acquire_spec(outcome).1 == FrameStep::Abort) <==> outcome
            == AcquireOutcome::Failed,
        s.after_acquire_spec(outcome).0.recreate_swapchain == (s.recreate_swapchain || outcome
            == AcquireOutcome::Acquired { suboptimal: true } || outcome
            == AcquireOutcome::OutOfDate),
        s.after_acquire_spec(outcome).0.input_state == s.input_state,
{
}

/// What flushing a frame leads to, for every loop state: the flushed future
/// is kept exactly when the flush succeeded (whether or not a recreation is
/// pending), the error is reported exactly when the flush failed for a
/// reason other than an out-of-date swapchain, and the future is reset
/// otherwise; a recreation is pending afterwards exactly when it was before
/// or the swapchain was out of date; the held controls are not touched.
pub proof fn lemma_flush_outcomes(s: RenderLoop, outcome: FlushOutcome)
    ensures
        (s.after_flush_spec(outcome).1 == FlushStep::KeepFuture) <==> outcome
            == FlushOutcome::Flushed,
        (s.after_flush_spec(outcome).1 == FlushStep::ReportAndReset) <==> outcome
            == FlushOutcome::Failed,
        (s.after_flush_spec(outcome).1 == FlushStep::ResetFuture) <==> outcome
            == FlushOutcome::OutOfDate,
        s.after_flush_spec(outcome).0.recreate_swapchain == (s.recreate_swapchain || outcome
            == FlushOutcome::OutOfDate),
        s.after_flush_spec(outcome).0.input_state == s.input_state,
{
}

/// A frame starts by recreating the swapchain exactly when a recreation is
/// pending, and otherwise by acquiring an image.
pub proof fn lemma_frame_start(s: RenderLoop)
    ensures
        (s.first_step() == FrameStep::RecreateSwapchain) <==> s.recreate_swapchain,
        !s.recreate_swapchain ==> s.first_step() == FrameStep::AcquireImage,
{
}

} // verus!
