//! Core logic of a small real-time game loop: a looping animation clock
//! driven by elapsed wall-clock time, a keyboard-to-action mapper that
//! derives forces and the active animation sequence each frame, and the
//! per-frame transition that sequences physics stepping, sprite rendering
//! and input handling.
//!
//! Floating-point simulation state (positions, masses, the physics solver)
//! lives outside this crate; the logic here works on plain integers and
//! booleans and is generic over the position values it routes to rendering.

pub mod animation;
pub mod frame;
pub mod input;

use vstd::prelude::*;

verus! {

/// Display duration of one animation frame, in milliseconds.
pub const FRAME_DURATION_MS: u64 = 200;

} // verus!
