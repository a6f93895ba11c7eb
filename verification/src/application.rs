//! The per-frame callbacks a consuming application implements.
//!
//! The host runtime drives an application at a fixed cadence of about 60
//! frames per second: `start` once, then every frame `update` with the
//! frame's input state, followed by the input snapshot advance, followed
//! by `render`. The runtime owning the host registers performs that loop;
//! the trait only fixes its shape.

use vstd::prelude::*;

use crate::framebuffer::Framebuffer;
use crate::inputs::Inputs;

verus! {

pub trait Application: Sized {
    /// Called at the start of the game, before the first update.
    fn start() -> Self;

    /// Called every frame, about 60 times per second.
    fn update(&mut self, inputs: &Inputs);

    /// Called after update
    fn render(&self, framebuffer: &Framebuffer);
}

} // verus!
