//! The player's rig and the parts of the web.

use vstd::prelude::*;
use crate::geometry::{Direction, Transform, Vec2};
use crate::physics::{Body, Entity, ImpulseJoint};

verus! {

/// The ragdoll: a torso, two arms and two eyes, and the web's hold if it has one.
#[derive(Clone, Copy, Debug)]
pub struct Player {
    pub body: Body,
    pub arm_r: Body,
    pub arm_l: Body,
    /// The right eye, then the left.
    pub eyes: [Body; 2],
    pub attached: Option<Attached>,
}

/// The web's hold on a surface.
#[derive(Clone, Copy, PartialEq, Eq, Debug, Structural)]
pub struct Attached {
    pub hit_point: Vec2,
    /// Where the pointer was in the window when the web took hold.
    pub start_cursor_pos: Vec2,
    pub num_segments: u32,
    /// The length below which the web is not reeled in.
    pub min_length: i64,
}

/// The search for a surface while the button is held.
#[derive(Clone, Copy, PartialEq, Eq, Debug, Structural)]
pub struct ShootingWeb {
    pub ray_norm: Direction,
    /// By how much the ray grows with each step.
    pub ray_length: i64,
    pub max_length: i64,
    pub steps: u32,
}

/// Whether the current shot has failed and is being drawn back.
#[derive(Clone, Copy, PartialEq, Eq, Debug, Structural)]
pub struct FailedShot(pub bool);

/// The bar that shows how far the shot has reached.
#[derive(Clone, Copy, PartialEq, Eq, Debug, Structural)]
pub struct WebShotVisual {
    pub transform: Transform,
}

/// One segment of the web: a small ball hinged to the segment before it.
#[derive(Clone, Copy, PartialEq, Eq, Debug, Structural)]
pub struct WebPart {
    /// Where the segment is, as the engine last reported it.
    pub translation: Vec2,
    pub joint: ImpulseJoint,
}

/// The bar drawn between two neighbouring segments.
#[derive(Clone, Copy, PartialEq, Eq, Debug, Structural)]
pub struct WebPartConnection {
    pub e1: Entity,
    pub e2: Entity,
    pub transform: Transform,
}

/// For how many frames in a row the restart key has been down.
#[derive(Clone, Copy, PartialEq, Eq, Debug, Structural)]
pub struct FramesRestartKeyHeld(pub u32);

/// The prompt that tells the player how to restart.
#[derive(Clone, Copy, PartialEq, Eq, Debug, Structural)]
pub struct RespawnMessage {
    pub is_visible: bool,
}

} // verus!
