//! The two backends: the handheld's framebuffer and input device, and the
//! desktop window used during development.

use vstd::prelude::*;

pub mod miyoo;
pub mod simulator;

verus! {

/// Width and height of a surface, in pixels.
#[derive(Debug, Clone, Copy, PartialEq, Eq, Structural)]
pub struct Size {
    pub width: u32,
    pub height: u32,
}

} // verus!
