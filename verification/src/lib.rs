//! The rules of a web-swinging platformer and of its level editor.
//!
//! A ragdoll shoots a web, a chain of small hinged balls, at the shapes of a
//! level and swings on it. The editor places, selects, moves, scales and turns
//! those shapes and saves them.
//!
//! The library holds the state of the game and decides what happens to it in
//! each frame. Drawing, reading the input devices and moving the bodies are
//! the work of an engine: it reports positions and the answers to ray, point
//! and overlap queries as plain values, and it builds and moves what the state
//! describes.
//!
//! All quantities are whole numbers. Lengths count thousandths of a pixel;
//! ratios such as a scale or a friction count thousandths; the components of a
//! direction count millionths.

use vstd::prelude::*;

pub mod editor;
pub mod game;
pub mod geometry;
pub mod input;
pub mod math;
pub mod physics;
pub mod util;

use crate::editor::camera::Camera;
use crate::input::KeyboardInput;

verus! {

/// How many thousandths of a metre of the engine's world make one pixel.
pub const METERS_PER_PIXEL: i64 = 1;

/// Makes the camera.
pub fn setup() -> (camera: Camera)
    ensures
        camera == Camera::spec_new(),
{
    Camera::new()
}

/// Whether the program is to end: while the escape key is down.
pub fn quit(keyboard: &KeyboardInput) -> (exit: bool)
    ensures
        exit == keyboard.escape.pressed,
{
    keyboard.escape.pressed
}

} // verus!
