//! Per-controller input edge detection.
//!
//! The host refreshes one raw 8-bit button bitmask per controller between
//! frames. A `Gamepad` keeps the snapshot of that mask observed at the
//! end of the previous frame and derives discrete transition events by
//! comparing it to the mask read in the current frame: a press is a
//! rising edge across exactly one frame boundary, a release a falling
//! edge, a hold the current state alone.
//!
//! The snapshot must advance exactly once per frame, after all input
//! reads of the frame: advancing it twice makes a fresh press look
//! already held and suppresses the press event on the next real frame,
//! and never advancing it means edges never fire. A button that goes
//! down and up again between two frame boundaries is invisible: only the
//! net state at frame-read time is observed (a sampling-rate limit, not
//! removable here).

use vstd::prelude::*;

verus! {

/// One physical button, identified by its bit in the raw mask.
#[derive(Clone, Copy, Debug, PartialEq, Eq, Structural)]
pub enum GamepadButton {
    ButtonX,
    ButtonY,
    DPadLeft,
    DPadRight,
    DPadUp,
    DPadDown,
}

impl GamepadButton {
    /// The single bit that flags this button in a raw mask.
    pub open spec fn spec_mask(self) -> u8 {
        match self {
            GamepadButton::ButtonX => 1,
            GamepadButton::ButtonY => 2,
            GamepadButton::DPadLeft => 16,
            GamepadButton::DPadRight => 32,
            GamepadButton::DPadUp => 64,
            GamepadButton::DPadDown => 128,
        }
    }

    pub fn mask(self) -> (r: u8)
        ensures
            r == self.spec_mask(),
    {
        match self {
            GamepadButton::ButtonX => 1,
            GamepadButton::ButtonY => 2,
            GamepadButton::DPadLeft => 16,
            GamepadButton::DPadRight => 32,
            GamepadButton::DPadUp => 64,
            GamepadButton::DPadDown => 128,
        }
    }
}

/// Whether the button's bit is set in a raw mask.
pub open spec fn spec_pressing(state: u8, button: GamepadButton) -> bool {
    state & button.spec_mask() != 0
}

/// A rising edge: the button's bit is clear in the previous frame's
/// snapshot and set in the current raw mask.
pub open spec fn spec_pressed(prev: u8, current: u8, button: GamepadButton) -> bool {
    !spec_pressing(prev, button) && spec_pressing(current, button)
}

/// A falling edge: the button's bit is set in the previous frame's
/// snapshot and clear in the current raw mask.
pub open spec fn spec_released(prev: u8, current: u8, button: GamepadButton) -> bool {
    spec_pressing(prev, button) && !spec_pressing(current, button)
}

/// The edge-detection state of one controller: the raw mask snapshot
/// retained from the end of the previous frame. During a frame the
/// snapshot is read-only; the frame-lifecycle glue overwrites it exactly
/// once, at frame end.
pub struct Gamepad {
    last_state: u8,
}

impl Gamepad {
    /// The previous frame's snapshot.
    pub closed spec fn spec_last_state(self) -> u8 {
        self.last_state
    }

    /// A fresh controller: before the first frame boundary, no button was
    /// observed down.
    pub(crate) fn new() -> (g: Gamepad)
        ensures
            g.spec_last_state() == 0,
    {
        Gamepad { last_state: 0 }
    }

    /// Advances the snapshot to the raw mask just observed. Must run
    /// exactly once per frame, after the frame's input reads.
    pub(crate) fn late_update(&mut self, current: u8)
        ensures
            final (self).spec_last_state() == current,
    {
        self.last_state = current;
    }

    /// True iff the button rose since the previous frame boundary:
    /// clear in the snapshot, set in the current raw mask.
    pub fn is_pressed(&self, current: u8, button: GamepadButton) -> (r: bool)
        ensures
            r == spec_pressed(self.spec_last_state(), current, button),
    {
        !Self::is_pressing(self.last_state, &button) && Self::is_pressing(current, &button)
    }

    /// True iff the button's bit is set in the current raw mask; no
    /// history is involved.
    pub fn is_held(&self, current: u8, button: GamepadButton) -> (r: bool)
        ensures
            r == spec_pressing(current, button),
    {
        Self::is_pressing(current, &button)
    }

    /// True iff the button fell since the previous frame boundary:
    /// set in the snapshot, clear in the current raw mask.
    pub fn is_released(&self, current: u8, button: GamepadButton) -> (r: bool)
        ensures
            r == spec_released(self.spec_last_state(), current, button),
    {
        Self::is_pressing(self.last_state, &button) && !Self::is_pressing(current, &button)
    }

    fn is_pressing(state: u8, button: &GamepadButton) -> (r: bool)
        ensures
            r == spec_pressing(state, *button),
    {
        state & button.mask() != 0
    }
}

/// The edge predicates agree with the raw bitmask arithmetic: for all
/// masks `prev` and `cur` and every button, a press is a set bit of
/// `!prev & cur`, a release a set bit of `prev & !cur`; when the button's
/// bit differs between the two masks exactly one of the two edges holds,
/// and when it matches neither does.
pub proof fn lemma_edge_detection(prev: u8, cur: u8, button: GamepadButton)
    ensures
        spec_pressed(prev, cur, button) <==> (!prev & cur) & button.spec_mask() != 0,
        spec_released(prev, cur, button) <==> (prev & !cur) & button.spec_mask() != 0,
        spec_pressing(prev, button) != spec_pressing(cur, button) ==> (spec_pressed(
            prev,
            cur,
            button,
        ) != spec_released(prev, cur, button)),
        spec_pressing(prev, button) == spec_pressing(cur, button) ==> (!spec_pressed(
            prev,
            cur,
            button,
        ) && !spec_released(prev, cur, button)),
{
    let m = button.spec_mask();
    assert(m == 1 || m == 2 || m == 16 || m == 32 || m == 64 || m == 128);
    assert((prev & m == 0 && cur & m != 0) <==> (!prev & cur) & m != 0) by (bit_vector)
        requires
            m == 1 || m == 2 || m == 16 || m == 32 || m == 64 || m == 128,
    ;
    assert((prev & m != 0 && cur & m == 0) <==> (prev & !cur) & m != 0) by (bit_vector)
        requires
            m == 1 || m == 2 || m == 16 || m == 32 || m == 64 || m == 128,
    ;
}

/// Advancing the snapshot again while the raw mask is unchanged yields no
/// further edges: once the snapshot equals the mask it is compared
/// against, neither a press nor a release is reported for any button.
pub proof fn lemma_unchanged_mask_no_edges(mask: u8, button: GamepadButton)
    ensures
        !spec_pressed(mask, mask, button),
        !spec_released(mask, mask, button),
{
}

} // verus!
