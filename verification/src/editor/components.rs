//! The shapes of a level and the marks the editor puts on them.

use vstd::prelude::*;
use crate::geometry::{Transform, Vec2};
use crate::physics::{
    Body, Collider, CollisionGroups, RigidBody, GROUP_LEVEL,
};
use crate::util::{ColorMaterial, ColorUpdate, MeshKey};
use crate::editor::editor::SpawnShapeParam;

verus! {

/// The groups a shape collides with: every group but its own.
pub const SHAPE_FILTERS: u32 = 0b1111_1110;

/// The depth at which shapes are drawn.
pub const SHAPE_DEPTH: i64 = 1000;

/// The friction of a shape, in thousandths.
pub const SHAPE_FRICTION: i64 = 100;

/// The restitution of a shape, in thousandths.
pub const SHAPE_RESTITUTION: i64 = 400;

#[derive(Clone, Copy, PartialEq, Eq, Debug, Structural)]
pub enum ShapeType {
    Rectangle,
    Oval,
}

/// The marquee: the corner at which the drag began.
#[derive(Clone, Copy, PartialEq, Eq, Debug, Structural)]
pub struct EditorSelectBox {
    pub start: Vec2,
}

/// The marquee as it stands in the world: a sensor that the engine tests the
/// shapes against.
#[derive(Clone, Copy, PartialEq, Eq, Debug, Structural)]
pub struct SelectBoxEntity {
    pub select_box: EditorSelectBox,
    /// Centred on the marquee and scaled to its width and height.
    pub transform: Transform,
    pub collider: Collider,
}

impl Default for EditorSelectBox {
    fn default() -> (r: Self)
        ensures
            r == (EditorSelectBox { start: Vec2::spec_zero() }),
    {
        EditorSelectBox { start: Vec2::zero() }
    }
}

/// What kind of shape it is, and whether the web sticks to it.
#[derive(Clone, Copy, PartialEq, Eq, Debug, Structural)]
pub struct EditorShape {
    pub shape_type: ShapeType,
    pub stickable: bool,
}

/// Marks a shape as part of the selection.
#[derive(Clone, Copy, PartialEq, Eq, Debug, Structural)]
pub struct Selected;

/// Marks the shape under the pointer.
#[derive(Clone, Copy, PartialEq, Eq, Debug, Structural)]
pub struct Hovered;

/// Marks a shape that the marquee can pick up.
#[derive(Clone, Copy, PartialEq, Eq, Debug, Structural)]
pub struct Selectable;

/// Marks a shape that the pointer can hover over.
#[derive(Clone, Copy, PartialEq, Eq, Debug, Structural)]
pub struct Hoverable;

/// A shape as it stands in the level.
#[derive(Clone, Copy, PartialEq, Eq, Debug, Structural)]
pub struct ShapeEntity {
    pub shape: EditorShape,
    /// Its fixed body. The body's joint, when it has one, ties the end of the
    /// web to the shape.
    pub body: Body,
    pub mesh: MeshKey,
    pub material: ColorMaterial,
    pub selected: Option<Selected>,
    pub hovered: Option<Hovered>,
    pub selectable: Option<Selectable>,
    /// The state for which the material was last painted.
    pub painted: ColorUpdate,
}

impl ShapeEntity {
    /// The state that decides the tint of the shape.
    pub open spec fn spec_color_state(&self) -> ColorUpdate {
        ColorUpdate {
            selected: self.selected is Some,
            hovered: self.hovered is Some,
            stickable: self.shape.stickable,
        }
    }

    /// The state that decides the tint of the shape.
    #[verifier::when_used_as_spec(spec_color_state)]
    pub fn color_state(&self) -> (r: ColorUpdate)
        ensures
            r == self.spec_color_state(),
    {
        ColorUpdate {
            selected: self.selected.is_some(),
            hovered: self.hovered.is_some(),
            stickable: self.shape.stickable,
        }
    }
}

impl EditorShape {
    pub fn new(shape_type: ShapeType, stickable: bool) -> (r: Self)
        ensures
            r == (EditorShape { shape_type, stickable }),
    {
        Self { shape_type, stickable }
    }

    /// The collider of a shape of this kind, before its transform scales it:
    /// a square of half side 1 or a circle of radius 1.
    pub open spec fn spec_collider(self) -> Collider {
        match self.shape_type {
            ShapeType::Rectangle => Collider::Cuboid { hx: 1000, hy: 1000 },
            ShapeType::Oval => Collider::Ball { radius: 1000 },
        }
    }

    /// The mesh of a shape of this kind.
    pub open spec fn spec_mesh(self) -> MeshKey {
        match self.shape_type {
            ShapeType::Rectangle => MeshKey::Box2,
            ShapeType::Oval => MeshKey::Circle1,
        }
    }

    /// The state in which a shape is spawned: neither selected nor hovered.
    pub open spec fn spec_fresh_state(self) -> ColorUpdate {
        ColorUpdate { selected: false, hovered: false, stickable: self.stickable }
    }

    /// The shape as it enters the level at `transform`, painted with `material`:
    /// a fixed body in the level's group that the marquee can pick up.
    pub open spec fn spec_entity(self, material: ColorMaterial, transform: Transform) -> ShapeEntity {
        ShapeEntity {
            shape: self,
            body: Body {
                transform,
                depth: SHAPE_DEPTH,
                velocity: Vec2::spec_zero(),
                collider: self.spec_collider(),
                rigid_body: RigidBody::Fixed,
                damping: None,
                friction: Some(SHAPE_FRICTION),
                restitution: Some(SHAPE_RESTITUTION),
                groups: CollisionGroups { memberships: GROUP_LEVEL, filters: SHAPE_FILTERS },
                joint: None,
            },
            mesh: self.spec_mesh(),
            material,
            selected: None,
            hovered: None,
            selectable: Some(Selectable),
            painted: self.spec_fresh_state(),
        }
    }

    /// Adds the shape to the level at `transform`, painted with the shared grey
    /// of its tint.
    pub fn spawn(self, param: &mut SpawnShapeParam, transform: &Transform)
        requires
            old(param).level.entity is Some,
            old(param).preload.loaded(),
        ensures
            final(param).preload == old(param).preload,
            final(param).level.entity is Some,
            final(param).level.entity->0.shapes@ == old(param).level.entity->0.shapes@.push(
                self.spec_entity(
                    ColorMaterial { color: self.spec_fresh_state().spec_get_color() },
                    *transform,
                ),
            ),
    {
        let color = ColorUpdate { selected: false, hovered: false, stickable: self.stickable }.get_color();
        let material: ColorMaterial = *param.preload.get_bw_color_handle(color);
        let (collider, mesh) = match self.shape_type {
            ShapeType::Rectangle => (Collider::Cuboid { hx: 1000, hy: 1000 }, MeshKey::Box2),
            ShapeType::Oval => (Collider::Ball { radius: 1000 }, MeshKey::Circle1),
        };
        let child = ShapeEntity {
            shape: self,
            body: Body {
                transform: *transform,
                depth: SHAPE_DEPTH,
                velocity: Vec2::zero(),
                collider,
                rigid_body: RigidBody::Fixed,
                damping: None,
                friction: Some(SHAPE_FRICTION),
                restitution: Some(SHAPE_RESTITUTION),
                groups: CollisionGroups::new(GROUP_LEVEL, SHAPE_FILTERS),
                joint: None,
            },
            mesh,
            material,
            selected: None,
            hovered: None,
            selectable: Some(Selectable),
            painted: ColorUpdate { selected: false, hovered: false, stickable: self.stickable },
        };
        match &mut param.level.entity {
            Some(level) => {
                level.shapes.push(child);
            },
            None => {},
        }
    }
}

} // verus!
