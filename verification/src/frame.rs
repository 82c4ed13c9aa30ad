//! The render loop's own state: whether to go on, the clock and counters that
//! feed the per-frame uniforms, and frame pacing.
//!
//! Reading the clock, sleeping and receiving window events are the caller's
//! part; they come in here as plain numbers and events.

use vstd::arithmetic::div_mod::{lemma_add_mod_noop, lemma_mul_mod_noop_left};
use vstd::prelude::*;

verus! {

/// The window to open.
#[derive(Clone, Debug, PartialEq, Eq)]
pub struct ScreenSettings {
    pub width: u32,
    pub height: u32,
    pub title: String,
}

/// The frame budget of the default pacing, in milliseconds: a sixtieth of a
/// second, rounded down.
pub const FRAME_MS_LIMIT: u64 = 1000 / 60;

/// The keys that the render loop tells apart.
#[derive(Clone, Copy, Debug, PartialEq, Eq, Structural)]
pub enum Key {
    Escape,
    Other,
}

/// A window event, reduced to what the render loop reads of it.
#[derive(Clone, Copy, Debug, PartialEq, Eq, Structural)]
pub enum InputEvent {
    /// The window was closed.
    Closed,
    /// The framebuffer has a new size, in pixels.
    Resized(u32, u32),
    /// A key was pressed or released.
    Keyboard(Key),
    /// The pointer moved to this position, in pixels.
    MouseMoved(i32, i32),
    /// Anything else.
    Other,
}

/// What the render loop carries from frame to frame.
#[derive(Clone, Copy, Debug, PartialEq, Eq, Structural)]
pub struct ProgramState {
    /// Cleared by a close request or the Escape key; the loop ends then.
    pub shall_continue: bool,
    /// Frames begun so far.
    pub frame: u64,
    /// Time since the program started, as read when the current frame began:
    /// whole seconds.
    pub elapsed_secs: u64,
    /// The fraction of a second that goes with `elapsed_secs`, in nanoseconds.
    pub elapsed_subsec_nanos: u32,
    /// Framebuffer width in pixels.
    pub width: u32,
    /// Framebuffer height in pixels.
    pub height: u32,
    /// Pointer position, horizontal.
    pub mouse_x: i32,
    /// Pointer position, vertical.
    pub mouse_y: i32,
}

/// Milliseconds in `secs` seconds and `subsec_nanos` nanoseconds, as a
/// 32-bit counter that wraps around.
pub open spec fn wrapped_millis(secs: u64, subsec_nanos: u32) -> int {
    (secs * 1000 + subsec_nanos / 1_000_000) % 0x1_0000_0000
}

/// The state after a window event.
pub open spec fn after_event(state: ProgramState, event: InputEvent) -> ProgramState {
    match event {
        InputEvent::Closed => ProgramState { shall_continue: false, ..state },
        InputEvent::Keyboard(Key::Escape) => ProgramState { shall_continue: false, ..state },
        InputEvent::Resized(width, height) => ProgramState { width, height, ..state },
        InputEvent::MouseMoved(x, y) => ProgramState { mouse_x: x, mouse_y: y, ..state },
        InputEvent::Keyboard(Key::Other) => state,
        InputEvent::Other => state,
    }
}

/// The state when the next frame begins, `secs` seconds and `subsec_nanos`
/// nanoseconds after the program started. The frame counter stops at its
/// largest value.
pub open spec fn after_frame_start(state: ProgramState, secs: u64, subsec_nanos: u32) -> ProgramState {
    ProgramState {
        frame: if state.frame < u64::MAX {
            (state.frame + 1) as u64
        } else {
            state.frame
        },
        elapsed_secs: secs,
        elapsed_subsec_nanos: subsec_nanos,
        ..state
    }
}

/// The state with which the render loop is entered: running if a first
/// program could be activated, stopped if not, and everything else at zero.
pub open spec fn startup_state(activated: bool) -> ProgramState {
    ProgramState {
        shall_continue: activated,
        frame: 0,
        elapsed_secs: 0,
        elapsed_subsec_nanos: 0,
        width: 0,
        height: 0,
        mouse_x: 0,
        mouse_y: 0,
    }
}

/// How long to rest after a frame that took `frame_ms` milliseconds, under a
/// budget of `budget_ms`: the remainder of the budget, or nothing where the
/// frame used it up.
pub open spec fn pause_for(frame_ms: u64, budget_ms: u64) -> Option<u64> {
    if frame_ms < budget_ms {
        Some((budget_ms - frame_ms) as u64)
    } else {
        None
    }
}

impl ProgramState {
    /// The state with which the render loop is entered. The loop may draw only
    /// if a first program could be activated; otherwise it is over before its
    /// first frame.
    pub fn after_startup(activated: bool) -> (state: ProgramState)
        ensures
            state == startup_state(activated),
    {
        ProgramState {
            shall_continue: activated,
            frame: 0,
            elapsed_secs: 0,
            elapsed_subsec_nanos: 0,
            width: 0,
            height: 0,
            mouse_x: 0,
            mouse_y: 0,
        }
    }

    /// Milliseconds since the program started, as of the current frame. The
    /// counter has 32 bits and wraps around after some 49 days.
    pub fn elapsed_millis(&self) -> (millis: u32)
        ensures
            millis == wrapped_millis(self.elapsed_secs, self.elapsed_subsec_nanos),
    {
        let low: u64 = self.elapsed_secs % 0x1_0000_0000;
        let fraction: u64 = (self.elapsed_subsec_nanos / 1_000_000) as u64;
        let total: u64 = low * 1000 + fraction;
        proof {
            let secs = self.elapsed_secs as int;
            let modulus = 0x1_0000_0000int;
            lemma_mul_mod_noop_left(secs, 1000, modulus);
            lemma_add_mod_noop(secs * 1000, fraction as int, modulus);
            lemma_add_mod_noop((secs % modulus) * 1000, fraction as int, modulus);
        }
        (total % 0x1_0000_0000) as u32
    }
}

impl Default for ProgramState {
    /// A loop that is running and has not begun a frame yet.
    fn default() -> (state: ProgramState)
        ensures
            state == startup_state(true),
    {
        ProgramState::after_startup(true)
    }
}

/// Begins a frame: counts it and takes over the clock reading.
pub fn update_state(state: &mut ProgramState, elapsed_secs: u64, elapsed_subsec_nanos: u32)
    ensures
        *final(state) == after_frame_start(*old(state), elapsed_secs, elapsed_subsec_nanos),
{
    if state.frame < u64::MAX {
        state.frame = state.frame + 1;
    }
    state.elapsed_secs = elapsed_secs;
    state.elapsed_subsec_nanos = elapsed_subsec_nanos;
}

/// Takes a window event into account. A close request and the Escape key end
/// the loop; a resize and a pointer move are recorded; nothing else matters.
pub fn handle_event(event: &InputEvent, state: &mut ProgramState)
    ensures
        *final(state) == after_event(*old(state), *event),
{
    match event {
        InputEvent::Closed => {
            state.shall_continue = false;
        },
        InputEvent::Resized(width, height) => {
            state.width = *width;
            state.height = *height;
        },
        InputEvent::Keyboard(key) => {
            match key {
                Key::Escape => {
                    state.shall_continue = false;
                },
                Key::Other => {},
            }
        },
        InputEvent::MouseMoved(x, y) => {
            state.mouse_x = *x;
            state.mouse_y = *y;
        },
        InputEvent::Other => {},
    }
}

/// Frame pacing: how many milliseconds to rest after a frame that took
/// `frame_ms` milliseconds, so that frames come no faster than one per
/// `budget_ms`. `None` means not to rest at all.
pub fn limit_rate(frame_ms: u64, budget_ms: u64) -> (pause: Option<u64>)
    ensures
        pause == pause_for(frame_ms, budget_ms),
{
    if frame_ms < budget_ms {
        Some(budget_ms - frame_ms)
    } else {
        None
    }
}

/// One thing that happens to the render loop's state.
pub enum LoopStep {
    /// A frame begins at this reading of the clock.
    FrameStart { secs: u64, subsec_nanos: u32 },
    /// A window event arrives.
    Event(InputEvent),
}

/// The state after one step.
pub open spec fn after_step(state: ProgramState, step: LoopStep) -> ProgramState {
    match step {
        LoopStep::FrameStart { secs, subsec_nanos } => after_frame_start(state, secs, subsec_nanos),
        LoopStep::Event(event) => after_event(state, event),
    }
}

/// The state after a run of steps.
pub open spec fn after_steps(state: ProgramState, steps: Seq<LoopStep>) -> ProgramState
    decreases steps.len(),
{
    if steps.len() == 0 {
        state
    } else {
        after_step(after_steps(state, steps.drop_last()), steps.last())
    }
}

/// A loop that has stopped stays stopped, whatever happens next.
pub proof fn law_stopped_stays_stopped(state: ProgramState, steps: Seq<LoopStep>)
    requires
        !state.shall_continue,
    ensures
        !after_steps(state, steps).shall_continue,
    decreases steps.len(),
{
    if steps.len() > 0 {
        law_stopped_stays_stopped(state, steps.drop_last());
    }
}

/// When no first program could be activated, the loop is entered stopped and
/// no later frame or event sets it going: a loop that draws only while
/// `shall_continue` holds never draws.
pub proof fn law_failed_startup_never_draws(steps: Seq<LoopStep>)
    ensures
        !after_steps(startup_state(false), steps).shall_continue,
{
    law_stopped_stays_stopped(startup_state(false), steps);
}

} // verus!
