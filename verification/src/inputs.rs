//! Frame-lifecycle glue for the four controller slots.
//!
//! `Inputs` owns one edge-detection state per controller. Once per frame,
//! after the application's update has finished observing input, the
//! runtime reads the four raw input registers and hands the masks to
//! `late_update`, which advances every controller's snapshot at once.

use vstd::prelude::*;

use crate::gamepad::Gamepad;

verus! {

/// The input state of all four controller slots.
pub struct Inputs {
    pub gamepad1: Gamepad,
    pub gamepad2: Gamepad,
    pub gamepad3: Gamepad,
    pub gamepad4: Gamepad,
}

impl Inputs {
    /// All controllers start with an all-clear snapshot: before the first
    /// frame boundary, no button was observed down.
    pub fn new() -> (r: Inputs)
        ensures
            r.gamepad1.spec_last_state() == 0,
            r.gamepad2.spec_last_state() == 0,
            r.gamepad3.spec_last_state() == 0,
            r.gamepad4.spec_last_state() == 0,
    {
        Inputs {
            gamepad1: Gamepad::new(),
            gamepad2: Gamepad::new(),
            gamepad3: Gamepad::new(),
            gamepad4: Gamepad::new(),
        }
    }

    /// Advances every controller's snapshot to the raw mask its input
    /// register held at the end of this frame. Must run exactly once per
    /// frame, after all input reads of the frame.
    pub fn late_update(&mut self, mask1: u8, mask2: u8, mask3: u8, mask4: u8)
        ensures
            final (self).gamepad1.spec_last_state() == mask1,
            final (self).gamepad2.spec_last_state() == mask2,
            final (self).gamepad3.spec_last_state() == mask3,
            final (self).gamepad4.spec_last_state() == mask4,
    {
        self.gamepad1.late_update(mask1);
        self.gamepad2.late_update(mask2);
        self.gamepad3.late_update(mask3);
        self.gamepad4.late_update(mask4);
    }
}

} // verus!
