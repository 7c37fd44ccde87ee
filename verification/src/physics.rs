//! What the library tells the rigid-body engine, and what it hears back.
//!
//! The engine owns the motion of the bodies. The library describes each body
//! (its collider, its joint, the groups it collides with) and takes in the
//! answers to its ray, point and overlap queries as plain values.

use vstd::prelude::*;
use crate::geometry::{Direction, Transform, Vec2};

verus! {

/// Every collision group.
pub const GROUP_ALL: u32 = 0xffff_ffff;

/// No collision group.
pub const GROUP_NONE: u32 = 0;

/// The group of the level's shapes.
pub const GROUP_LEVEL: u32 = 0b1;

/// The group of the player's rig and of the web.
pub const GROUP_PLAYER: u32 = 0b10;

/// Names a body of the simulation.
#[derive(Clone, Copy, PartialEq, Eq, Debug, Structural)]
pub enum Entity {
    /// The player's torso.
    Body,
    ArmLeft,
    ArmRight,
    EyeRight,
    EyeLeft,
    /// A segment of the web, by its place in the chain.
    WebPart(usize),
    /// A shape of the level, by its place in the level.
    Shape(usize),
}

/// The outline with which a body collides.
#[derive(Clone, Copy, PartialEq, Eq, Debug, Structural)]
pub enum Collider {
    Ball { radius: i64 },
    Cuboid { hx: i64, hy: i64 },
    CapsuleX { half_height: i64, radius: i64 },
    CapsuleY { half_height: i64, radius: i64 },
}

/// Whether the engine moves a body.
#[derive(Clone, Copy, PartialEq, Eq, Debug, Structural)]
pub enum RigidBody {
    Dynamic,
    Fixed,
}

/// The groups a body belongs to and the groups it collides with.
#[derive(Clone, Copy, PartialEq, Eq, Debug, Structural)]
pub struct CollisionGroups {
    pub memberships: u32,
    pub filters: u32,
}

/// How fast a body's motion dies down, in thousandths.
#[derive(Clone, Copy, PartialEq, Eq, Debug, Structural)]
pub struct Damping {
    pub linear_damping: i64,
    pub angular_damping: i64,
}

/// A hinge: the point `local_anchor1` of the parent and the point
/// `local_anchor2` of the jointed body are held together.
#[derive(Clone, Copy, PartialEq, Eq, Debug, Structural)]
pub struct RevoluteJoint {
    pub local_anchor1: Vec2,
    pub local_anchor2: Vec2,
}

/// A hinge together with the body on its far side.
#[derive(Clone, Copy, PartialEq, Eq, Debug, Structural)]
pub struct ImpulseJoint {
    pub parent: Entity,
    pub data: RevoluteJoint,
}

/// A body as the engine is to build it.
#[derive(Clone, Copy, PartialEq, Eq, Debug, Structural)]
pub struct Body {
    pub transform: Transform,
    /// Where the body is drawn in depth, in thousandths.
    pub depth: i64,
    /// Linear velocity in units per second, as the engine last reported it.
    pub velocity: Vec2,
    pub collider: Collider,
    pub rigid_body: RigidBody,
    pub damping: Option<Damping>,
    /// In thousandths.
    pub friction: Option<i64>,
    /// In thousandths.
    pub restitution: Option<i64>,
    pub groups: CollisionGroups,
    pub joint: Option<ImpulseJoint>,
}

/// A ray that the engine is asked to cast.
#[derive(Clone, Copy, PartialEq, Eq, Debug, Structural)]
pub struct RayCast {
    pub origin: Vec2,
    pub direction: Direction,
    /// How far the ray reaches.
    pub max_toi: i64,
    /// Whether a ray that starts inside a shape hits it at once.
    pub solid: bool,
    /// The ray's own groups: what it may hit.
    pub groups: CollisionGroups,
}

/// Where a ray met a shape.
#[derive(Clone, Copy, PartialEq, Eq, Debug, Structural)]
pub struct RayIntersection {
    pub point: Vec2,
    /// The outward normal of the surface at `point`.
    pub normal: Direction,
    /// The distance from the ray's origin to `point`.
    pub toi: i64,
}

impl CollisionGroups {
    pub fn new(memberships: u32, filters: u32) -> (r: CollisionGroups)
        ensures
            r == (CollisionGroups { memberships, filters }),
    {
        CollisionGroups { memberships, filters }
    }
}

impl ImpulseJoint {
    pub fn new(parent: Entity, data: RevoluteJoint) -> (r: ImpulseJoint)
        ensures
            r == (ImpulseJoint { parent, data }),
    {
        ImpulseJoint { parent, data }
    }
}

} // verus!
