//! The renderer's per-tick decision logic.
//!
//! The host event loop owns scheduling: it calls [`RenderState::tick`]
//! once per paint tick with the current pointer-button level, and carries
//! out the returned actions (resize the window once to fit the measured
//! text, start a window drag on a press edge, request a repaint within a
//! fixed interval). The decisions themselves — when to resize, when to
//! drag — are made and verified here; the measuring, painting and window
//! commands stay with the host.

use vstd::prelude::*;

verus! {

/// Points added to the measured text width when the window is resized to
/// fit on the first paint tick.
pub const WIDTH_PADDING: u64 = 40;

/// Points added to the font size to obtain the window height on the
/// first paint tick.
pub const HEIGHT_PADDING: u64 = 50;

/// The renderer asks to be woken again within this many milliseconds on
/// every tick, so the window redraws periodically without busy-polling.
pub const REPAINT_INTERVAL_MS: u64 = 250;

/// Where the window stands in its one-shot fit-to-text resize.
#[derive(Clone, Copy, PartialEq, Eq, Structural, Debug)]
pub enum Phase {
    /// Initial: the window still has its configured starting size; the
    /// first paint tick resizes it to fit the text.
    Unsized,
    /// Terminal: the resize has been issued; held for the rest of the run.
    Sized,
}

/// The renderer's mutable state between ticks.
#[derive(Clone, Copy, PartialEq, Eq, Structural, Debug)]
pub struct RenderState {
    /// One-shot resize phase.
    pub phase: Phase,
    /// Whether the primary pointer button was down on the previous tick,
    /// for press-edge detection.
    pub pointer_was_down: bool,
}

/// What the host must do after one tick.
#[derive(Clone, Copy, PartialEq, Eq, Structural, Debug)]
pub struct TickActions {
    /// Measure the text and resize the window to fit, with the padding
    /// constants above. Issued on the first tick only.
    pub resize: bool,
    /// Begin a window drag, so the user can reposition the window.
    pub start_drag: bool,
    /// Ask the event loop for another tick within this many milliseconds.
    pub repaint_after_ms: u64,
}

/// A drag starts exactly when the window is undecorated and the primary
/// pointer button goes from released to pressed.
pub open spec fn spec_drag_start(undecorated: bool, was_down: bool, down: bool) -> bool {
    undecorated && down && !was_down
}

/// The state after one tick: the phase is Sized from the first tick on,
/// and the pointer level is remembered for the next edge detection.
pub open spec fn spec_next(s: RenderState, down: bool) -> RenderState {
    RenderState { phase: Phase::Sized, pointer_was_down: down }
}

impl RenderState {
    /// The state before the first paint tick: unsized, button released.
    pub fn new() -> (s: Self)
        ensures
            s == (RenderState { phase: Phase::Unsized, pointer_was_down: false }),
    {
        RenderState { phase: Phase::Unsized, pointer_was_down: false }
    }

    /// One paint tick. `pointer_down` is the current level of the primary
    /// pointer button as the host reports it.
    ///
    /// A resize is requested exactly when this is the first tick; a drag
    /// starts exactly on a press edge of an undecorated window; a repaint
    /// is always requested within the fixed interval.
    pub fn tick(&mut self, undecorated: bool, pointer_down: bool) -> (a: TickActions)
        ensures
            a.resize == (old(self).phase is Unsized),
            a.start_drag == spec_drag_start(undecorated, old(self).pointer_was_down, pointer_down),
            a.repaint_after_ms == REPAINT_INTERVAL_MS,
            *final(self) == spec_next(*old(self), pointer_down),
    {
        let resize = match self.phase {
            Phase::Unsized => true,
            Phase::Sized => false,
        };
        let start_drag = undecorated && pointer_down && !self.pointer_was_down;
        self.phase = Phase::Sized;
        self.pointer_was_down = pointer_down;
        TickActions { resize, start_drag, repaint_after_ms: REPAINT_INTERVAL_MS }
    }
}

/// The state after a run of ticks whose pointer levels are `downs`.
pub open spec fn spec_run(s: RenderState, downs: Seq<bool>) -> RenderState
    decreases downs.len(),
{
    if downs.len() == 0 {
        s
    } else {
        spec_run(spec_next(s, downs[0]), downs.drop_first())
    }
}

/// How many drag starts a run of ticks issues.
pub open spec fn spec_drag_count(s: RenderState, undecorated: bool, downs: Seq<bool>) -> nat
    decreases downs.len(),
{
    if downs.len() == 0 {
        0
    } else {
        (if spec_drag_start(undecorated, s.pointer_was_down, downs[0]) {
            1nat
        } else {
            0nat
        }) + spec_drag_count(spec_next(s, downs[0]), undecorated, downs.drop_first())
    }
}

/// How many released-to-pressed transitions a pointer-level sequence
/// holds, starting from level `was_down`.
pub open spec fn spec_press_edge_count(was_down: bool, downs: Seq<bool>) -> nat
    decreases downs.len(),
{
    if downs.len() == 0 {
        0
    } else {
        (if downs[0] && !was_down {
            1nat
        } else {
            0nat
        }) + spec_press_edge_count(downs[0], downs.drop_first())
    }
}

/// How many resize requests a run of ticks issues.
pub open spec fn spec_resize_count(s: RenderState, downs: Seq<bool>) -> nat
    decreases downs.len(),
{
    if downs.len() == 0 {
        0
    } else {
        (if s.phase is Unsized {
            1nat
        } else {
            0nat
        }) + spec_resize_count(spec_next(s, downs[0]), downs.drop_first())
    }
}

/// Law: the Sized phase is terminal. After any non-empty run of ticks the
/// state is Sized — reached on the first tick and held for the remainder
/// of the run — and the remembered pointer level is the last one the host
/// reported.
pub proof fn lemma_sized_is_terminal(s: RenderState, downs: Seq<bool>)
    requires
        downs.len() > 0,
    ensures
        spec_run(s, downs).phase is Sized,
        spec_run(s, downs).pointer_was_down == downs.last(),
    decreases downs.len(),
{
    if downs.len() > 1 {
        lemma_sized_is_terminal(spec_next(s, downs[0]), downs.drop_first());
        assert(downs.drop_first().last() == downs.last());
    } else {
        assert(downs.drop_first().len() == 0);
        assert(spec_run(spec_next(s, downs[0]), downs.drop_first()) == spec_next(s, downs[0]));
    }
}

/// Law: an undecorated window issues exactly one drag start per press
/// edge of the primary pointer button — one per released-to-pressed
/// transition, none while the button stays held — over any run of ticks
/// from any state.
pub proof fn lemma_one_drag_start_per_press_edge(s: RenderState, downs: Seq<bool>)
    ensures
        spec_drag_count(s, true, downs) == spec_press_edge_count(s.pointer_was_down, downs),
    decreases downs.len(),
{
    if downs.len() > 0 {
        lemma_one_drag_start_per_press_edge(spec_next(s, downs[0]), downs.drop_first());
    }
}

/// Law: a decorated window never issues a drag start, whatever the
/// pointer does.
pub proof fn lemma_no_drag_start_when_decorated(s: RenderState, downs: Seq<bool>)
    ensures
        spec_drag_count(s, false, downs) == 0,
    decreases downs.len(),
{
    if downs.len() > 0 {
        lemma_no_drag_start_when_decorated(spec_next(s, downs[0]), downs.drop_first());
    }
}

/// Law: the fit-to-text resize is one-shot. A run of ticks issues exactly
/// one resize when it starts in the unsized phase and runs at all, and
/// none when it starts already sized.
pub proof fn lemma_resize_is_one_shot(s: RenderState, downs: Seq<bool>)
    ensures
        spec_resize_count(s, downs) == if s.phase is Unsized && downs.len() > 0 {
            1nat
        } else {
            0nat
        },
    decreases downs.len(),
{
    if downs.len() > 0 {
        lemma_resize_is_one_shot(spec_next(s, downs[0]), downs.drop_first());
    }
}

} // verus!
