//! The present loop's state machine.
//!
//! Each frame the renderer reacts to a window event, and then — when a frame
//! is to be drawn — to the outcome of recreating the swapchain, of acquiring
//! an image and of flushing the submitted work. The functions here take those
//! events and outcomes as plain values and decide the next action, updating
//! the one piece of state the loop carries: whether the swapchain must be
//! rebuilt before the next frame.

use vstd::prelude::*;

verus! {

/// State the present loop carries between events.
#[derive(Clone, Copy, PartialEq, Eq, Structural, Debug)]
pub struct LoopState {
    /// The swapchain no longer matches the surface and must be rebuilt
    /// before the next frame is drawn.
    pub recreate_swapchain: bool,
}

impl LoopState {
    /// The state at loop start: the swapchain that was just created is current.
    pub fn new() -> (s: LoopState)
        ensures
            !s.recreate_swapchain,
    {
        LoopState { recreate_swapchain: false }
    }
}

/// The window events the loop reacts to; every other event is ignored.
#[derive(Clone, Copy, PartialEq, Eq, Structural, Debug)]
pub enum WindowSignal {
    /// The user asked to close the window.
    CloseRequested,
    /// The window was resized.
    Resized,
    /// All pending events are handled; a frame may be drawn.
    RedrawReady,
}

/// What the loop does in response to a window event.
#[derive(Clone, Copy, PartialEq, Eq, Structural, Debug)]
pub enum EventAction {
    /// Leave the event loop.
    ExitLoop,
    /// Nothing to do for this event.
    DoNothing,
    /// Draw one frame now.
    DrawFrame,
}

/// How a frame proceeds after one of its steps.
#[derive(Clone, Copy, PartialEq, Eq, Structural, Debug)]
pub enum FrameAction {
    /// Go on with the rest of the frame.
    Proceed,
    /// Give this frame up and wait for the next event.
    SkipFrame,
    /// An error the loop cannot recover from.
    Abort,
}

/// Decide what a window event calls for.
///
/// Closing exits; a resize only marks the swapchain stale, the rebuild
/// happens when the next frame is drawn; once events are drained a frame is
/// drawn.
pub fn handle_event(state: &mut LoopState, signal: WindowSignal) -> (a: EventAction)
    ensures
        match signal {
            WindowSignal::CloseRequested => a == EventAction::ExitLoop && *final(state) == *old(state),
            WindowSignal::Resized => a == EventAction::DoNothing
                && (*final(state) == LoopState { recreate_swapchain: true }),
            WindowSignal::RedrawReady => a == EventAction::DrawFrame && *final(state) == *old(state),
        },
{
    match signal {
        WindowSignal::CloseRequested => EventAction::ExitLoop,
        WindowSignal::Resized => {
            state.recreate_swapchain = true;
            EventAction::DoNothing
        },
        WindowSignal::RedrawReady => EventAction::DrawFrame,
    }
}

/// Whether the frame being started must rebuild the swapchain first.
pub fn needs_recreate(state: &LoopState) -> (b: bool)
    ensures
        b == state.recreate_swapchain,
{
    state.recreate_swapchain
}

/// How an attempt to rebuild the swapchain ended.
#[derive(Clone, Copy, PartialEq, Eq, Structural, Debug)]
pub enum RecreateOutcome {
    /// A new swapchain and new images exist.
    Recreated,
    /// The surface reported an extent the swapchain cannot take (the window
    /// is mid-resize); trying again later is expected to succeed.
    ExtentUnsupported,
    /// Any other error.
    RecreateFailed,
}

/// Decide how the frame goes on after a swapchain rebuild attempt.
///
/// Success clears the stale mark and the frame continues; an unsupported
/// extent skips the frame and leaves the mark, so the next frame tries
/// again; any other error aborts.
pub fn apply_recreate_outcome(state: &mut LoopState, outcome: RecreateOutcome) -> (a: FrameAction)
    ensures
        match outcome {
            RecreateOutcome::Recreated => a == FrameAction::Proceed
                && (*final(state) == LoopState { recreate_swapchain: false }),
            RecreateOutcome::ExtentUnsupported => a == FrameAction::SkipFrame
                && *final(state) == *old(state),
            RecreateOutcome::RecreateFailed => a == FrameAction::Abort
                && *final(state) == *old(state),
        },
{
    match outcome {
        RecreateOutcome::Recreated => {
            state.recreate_swapchain = false;
            FrameAction::Proceed
        },
        RecreateOutcome::ExtentUnsupported => FrameAction::SkipFrame,
        RecreateOutcome::RecreateFailed => FrameAction::Abort,
    }
}

/// How acquiring the next swapchain image ended.
#[derive(Clone, Copy, PartialEq, Eq, Structural, Debug)]
pub enum AcquireOutcome {
    /// An image was acquired. `suboptimal` is the driver's hint that the
    /// swapchain still works but no longer matches the surface well.
    Acquired { image_index: usize, suboptimal: bool },
    /// The swapchain can no longer present to the surface.
    OutOfDate,
    /// Any other error.
    AcquireFailed,
}

/// Decide how the frame goes on after trying to acquire an image.
///
/// An acquired image lets the frame continue, and a suboptimal hint marks
/// the swapchain stale for the next frame; an out-of-date swapchain marks
/// it stale and skips the frame; any other error aborts.
pub fn apply_acquire_outcome(state: &mut LoopState, outcome: &AcquireOutcome) -> (a: FrameAction)
    ensures
        match *outcome {
            AcquireOutcome::Acquired { image_index, suboptimal } => a == FrameAction::Proceed
                && final(state).recreate_swapchain == (old(state).recreate_swapchain || suboptimal),
            AcquireOutcome::OutOfDate => a == FrameAction::SkipFrame
                && (*final(state) == LoopState { recreate_swapchain: true }),
            AcquireOutcome::AcquireFailed => a == FrameAction::Abort
                && *final(state) == *old(state),
        },
{
    match *outcome {
        AcquireOutcome::Acquired { image_index: _, suboptimal } => {
            if suboptimal {
                state.recreate_swapchain = true;
            }
            FrameAction::Proceed
        },
        AcquireOutcome::OutOfDate => {
            state.recreate_swapchain = true;
            FrameAction::SkipFrame
        },
        AcquireOutcome::AcquireFailed => FrameAction::Abort,
    }
}

/// How flushing the frame's submitted work ended.
#[derive(Clone, Copy, PartialEq, Eq, Structural, Debug)]
pub enum PresentOutcome {
    /// Submission and present were flushed; the returned fence future is the
    /// frame boundary to wait on.
    Presented,
    /// The swapchain went out of date between acquire and present.
    PresentOutOfDate,
    /// Any other flush error.
    PresentFailed,
}

/// What the loop keeps as the frame boundary after a flush.
#[derive(Clone, Copy, PartialEq, Eq, Structural, Debug)]
pub enum PresentAction {
    /// Keep the future of the flushed frame.
    KeepFrameFuture,
    /// Drop the failed frame and start the next from an already-signalled
    /// point.
    DiscardFrameFuture,
    /// As `DiscardFrameFuture`, and report the error.
    ReportAndDiscardFrameFuture,
}

/// Decide what to keep after flushing a frame.
///
/// A flushed frame's future is kept; an out-of-date present marks the
/// swapchain stale and drops the frame; any other flush error is reported
/// and the frame dropped. The loop itself never stops here: a failed flush
/// only costs the frame.
pub fn apply_present_outcome(state: &mut LoopState, outcome: PresentOutcome) -> (a: PresentAction)
    ensures
        match outcome {
            PresentOutcome::Presented => a == PresentAction::KeepFrameFuture
                && *final(state) == *old(state),
            PresentOutcome::PresentOutOfDate => a == PresentAction::DiscardFrameFuture
                && (*final(state) == LoopState { recreate_swapchain: true }),
            PresentOutcome::PresentFailed => a == PresentAction::ReportAndDiscardFrameFuture
                && *final(state) == *old(state),
        },
{
    match outcome {
        PresentOutcome::Presented => PresentAction::KeepFrameFuture,
        PresentOutcome::PresentOutOfDate => {
            state.recreate_swapchain = true;
            PresentAction::DiscardFrameFuture
        },
        PresentOutcome::PresentFailed => PresentAction::ReportAndDiscardFrameFuture,
    }
}

/// Arguments of the one draw call a frame records.
#[derive(Clone, Copy, PartialEq, Eq, Structural, Debug)]
pub struct DrawCall {
    pub vertex_count: u32,
    pub instance_count: u32,
    pub first_vertex: u32,
    pub first_instance: u32,
}

/// The frame's single draw: every vertex of the buffer, one instance,
/// starting at the beginning.
pub fn draw_call(vertex_count: u32) -> (d: DrawCall)
    ensures
        d == (DrawCall { vertex_count, instance_count: 1, first_vertex: 0, first_instance: 0 }),
{
    DrawCall { vertex_count, instance_count: 1, first_vertex: 0, first_instance: 0 }
}

} // verus!
