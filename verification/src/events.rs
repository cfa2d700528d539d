//! The event-loop step: what the application does in response to one
//! window event, as a pure transition from state and event to new state
//! and requested action.

use vstd::prelude::*;

verus! {

/// One platform event, reduced to what the loop's decisions read.
#[derive(Clone, Copy, PartialEq, Eq, Structural, Debug)]
pub enum LoopEvent {
    /// The user asked to close the window.
    CloseRequested,
    /// The window was resized (the new size is read again at redraw time).
    Resized,
    /// All redraw events were delivered; `width` and `height` are the
    /// window's current inner size in pixels.
    RedrawCleared { width: u32, height: u32 },
    /// Any other event; the loop ignores it.
    Other,
}

/// What the surroundings are asked to do in response to one event.
#[derive(Clone, Copy, PartialEq, Eq, Structural, Debug)]
pub enum LoopAction {
    /// Leave the event loop.
    Exit,
    /// Recreate the swapchain with the given extent, which is never zero
    /// in either dimension.
    RecreateSwapchain { width: u32, height: u32 },
    /// Do nothing and wait for the next event.
    Idle,
}

/// The loop's own state between events.
#[derive(Clone, Copy, PartialEq, Eq, Structural, Debug)]
pub struct LoopState {
    /// Set when a resize made the current swapchain stale.
    pub recreate_swapchain: bool,
}

/// The transition the loop makes on one event.
///
/// A close request exits; a resize only marks the swapchain stale; once
/// redraw events are cleared, a stale swapchain is recreated at the
/// window's current size — unless either dimension is zero, in which case
/// nothing at all is done and the stale mark is kept.
pub open spec fn step_spec(state: LoopState, event: LoopEvent) -> (LoopState, LoopAction) {
    match event {
        LoopEvent::CloseRequested => (state, LoopAction::Exit),
        LoopEvent::Resized => (LoopState { recreate_swapchain: true }, LoopAction::Idle),
        LoopEvent::RedrawCleared { width, height } => {
            if width == 0 || height == 0 {
                (state, LoopAction::Idle)
            } else if state.recreate_swapchain {
                (
                    LoopState { recreate_swapchain: false },
                    LoopAction::RecreateSwapchain { width, height },
                )
            } else {
                (state, LoopAction::Idle)
            }
        },
        LoopEvent::Other => (state, LoopAction::Idle),
    }
}

/// Executable transition, equal to `step_spec` on every state and event.
/// It never asks for a swapchain with a zero dimension.
pub fn step(state: LoopState, event: LoopEvent) -> (r: (LoopState, LoopAction))
    ensures
        r == step_spec(state, event),
        (r.1 matches LoopAction::RecreateSwapchain { width, height } ==> width > 0 && height > 0),
{
    match event {
        LoopEvent::CloseRequested => (state, LoopAction::Exit),
        LoopEvent::Resized => (LoopState { recreate_swapchain: true }, LoopAction::Idle),
        LoopEvent::RedrawCleared { width, height } => {
            if width == 0 || height == 0 {
                (state, LoopAction::Idle)
            } else if state.recreate_swapchain {
                (
                    LoopState { recreate_swapchain: false },
                    LoopAction::RecreateSwapchain { width, height },
                )
            } else {
                (state, LoopAction::Idle)
            }
        },
        LoopEvent::Other => (state, LoopAction::Idle),
    }
}

/// A redraw at a zero-area extent is skipped entirely: the loop does
/// nothing and its state is unchanged, so the swapchain is never given a
/// zero dimension and the stale mark survives until a drawable size comes.
pub proof fn lemma_zero_extent_skips(state: LoopState, width: u32, height: u32)
    requires
        width == 0 || height == 0,
    ensures
        step_spec(state, LoopEvent::RedrawCleared { width, height }).0 == state,
        step_spec(state, LoopEvent::RedrawCleared { width, height }).1 == LoopAction::Idle,
{
}

} // verus!
