//! Building the player's rig anew.

use vstd::prelude::*;
use crate::editor::components::ShapeEntity;
use crate::game::level::Level;
use crate::game::player::components::{FailedShot, Player};
use crate::game::player::controls::controls::{
    all_unhinged, unhinged, ControlsInput, PlayerControlsParam, PlayerControlsQueries, WebWorld,
};
use crate::game::player::controls::phase::{phase_of, web_wf, WebPhase};
use crate::geometry::{Transform, Vec2};
use crate::physics::{
    Body, Collider, CollisionGroups, Damping, Entity, ImpulseJoint, RevoluteJoint, RigidBody,
    GROUP_ALL, GROUP_NONE, GROUP_PLAYER,
};

verus! {

/// Whether the player is to be built anew at the next chance.
#[derive(Clone, Copy, PartialEq, Eq, Debug, Structural)]
pub struct Respawn(pub bool);

/// The depth at which the torso is drawn.
pub const TORSO_DEPTH: i64 = -10_000;

/// The depth at which the eyes are drawn.
pub const EYE_DEPTH: i64 = -100;

/// A placement at the point `(x, y)`, unturned, at scale one.
pub open spec fn placed(x: i64, y: i64) -> Transform {
    Transform::spec_from_translation(Vec2 { x, y })
}

/// A hinge on the torso.
pub open spec fn torso_joint(anchor1: Vec2, anchor2: Vec2) -> Option<ImpulseJoint> {
    Some(
        ImpulseJoint {
            parent: Entity::Body,
            data: RevoluteJoint { local_anchor1: anchor1, local_anchor2: anchor2 },
        },
    )
}

/// The torso of a fresh rig: an upright capsule at the origin, in the
/// player's group, that collides with everything.
pub open spec fn fresh_torso() -> Body {
    Body {
        transform: placed(0, 0),
        depth: TORSO_DEPTH,
        velocity: Vec2::spec_zero(),
        collider: Collider::CapsuleY { half_height: 20_000, radius: 20_000 },
        rigid_body: RigidBody::Dynamic,
        damping: None,
        friction: Some(100),
        restitution: Some(700),
        groups: CollisionGroups { memberships: GROUP_PLAYER, filters: GROUP_ALL },
        joint: None,
    }
}

/// An arm of a fresh rig: a lying capsule, hinged to the torso at the
/// shoulder, whose swing dies down.
pub open spec fn fresh_arm(left: bool) -> Body {
    let side: int = if left { 1 } else { -1 };
    Body {
        transform: placed((side * 45_000) as i64, 20_000),
        depth: 0,
        velocity: Vec2::spec_zero(),
        collider: Collider::CapsuleX { half_height: 15_000, radius: 5_000 },
        rigid_body: RigidBody::Dynamic,
        damping: Some(Damping { linear_damping: 0, angular_damping: 5_000 }),
        friction: Some(500),
        restitution: Some(400),
        groups: CollisionGroups { memberships: GROUP_PLAYER, filters: GROUP_ALL },
        joint: torso_joint(
            Vec2 { x: (side * 25_000) as i64, y: 20_000 },
            Vec2 { x: (side * -20_000) as i64, y: 0 },
        ),
    }
}

/// An eye of a fresh rig: a small ball hinged to the torso that collides with
/// nothing.
pub open spec fn fresh_eye(left: bool) -> Body {
    let side: int = if left { 1 } else { -1 };
    Body {
        transform: placed((side * 5_625) as i64, 21_250),
        depth: EYE_DEPTH,
        velocity: Vec2::spec_zero(),
        collider: Collider::Ball { radius: 5_625 },
        rigid_body: RigidBody::Dynamic,
        damping: Some(Damping { linear_damping: 0, angular_damping: 2_000 }),
        friction: None,
        restitution: None,
        groups: CollisionGroups { memberships: GROUP_NONE, filters: GROUP_NONE },
        joint: torso_joint(
            Vec2 { x: (side * 8_750) as i64, y: 21_250 },
            Vec2 { x: (side * 3_125) as i64, y: 0 },
        ),
    }
}

/// A fresh rig: one torso, two arms and two eyes in their places, and no hold.
pub open spec fn fresh_player() -> Player {
    Player {
        body: fresh_torso(),
        arm_r: fresh_arm(false),
        arm_l: fresh_arm(true),
        eyes: [fresh_eye(false), fresh_eye(true)],
        attached: None,
    }
}

/// Whether `player` is a fresh rig: one torso, two arms and two eyes in their
/// places, and no hold.
pub open spec fn is_fresh_player(player: Player) -> bool {
    &&& player.body == fresh_torso()
    &&& player.arm_l == fresh_arm(true)
    &&& player.arm_r == fresh_arm(false)
    &&& player.eyes[0] == fresh_eye(false)
    &&& player.eyes[1] == fresh_eye(true)
    &&& player.attached is None
}

/// A body at the point `(x, y)`, unturned.
fn place(x: i64, y: i64) -> (r: Transform)
    ensures
        r == placed(x, y),
{
    Transform::from_translation(Vec2 { x, y })
}

/// A hinge on the torso.
fn hinge_on_torso(anchor1: Vec2, anchor2: Vec2) -> (r: Option<ImpulseJoint>)
    ensures
        r == torso_joint(anchor1, anchor2),
{
    Some(ImpulseJoint::new(Entity::Body, RevoluteJoint { local_anchor1: anchor1, local_anchor2: anchor2 }))
}

/// An arm of a fresh rig.
fn build_arm(left: bool) -> (r: Body)
    ensures
        r == fresh_arm(left),
{
    let side: i64 = if left { 1 } else { -1 };
    Body {
        transform: place(side * 45_000, 20_000),
        depth: 0,
        velocity: Vec2::zero(),
        collider: Collider::CapsuleX { half_height: 15_000, radius: 5_000 },
        rigid_body: RigidBody::Dynamic,
        damping: Some(Damping { linear_damping: 0, angular_damping: 5_000 }),
        friction: Some(500),
        restitution: Some(400),
        groups: CollisionGroups::new(GROUP_PLAYER, GROUP_ALL),
        joint: hinge_on_torso(
            Vec2 { x: side * 25_000, y: 20_000 },
            Vec2 { x: side * -20_000, y: 0 },
        ),
    }
}

/// An eye of a fresh rig.
fn build_eye(left: bool) -> (r: Body)
    ensures
        r == fresh_eye(left),
{
    let side: i64 = if left { 1 } else { -1 };
    Body {
        transform: place(side * 5_625, 21_250),
        depth: EYE_DEPTH,
        velocity: Vec2::zero(),
        collider: Collider::Ball { radius: 5_625 },
        rigid_body: RigidBody::Dynamic,
        damping: Some(Damping { linear_damping: 0, angular_damping: 2_000 }),
        friction: None,
        restitution: None,
        groups: CollisionGroups::new(GROUP_NONE, GROUP_NONE),
        joint: hinge_on_torso(Vec2 { x: side * 8_750, y: 21_250 }, Vec2 { x: side * 3_125, y: 0 }),
    }
}

/// A fresh rig.
pub fn build_player() -> (player: Player)
    ensures
        is_fresh_player(player),
        player == fresh_player(),
{
    let body = Body {
        transform: place(0, 0),
        depth: TORSO_DEPTH,
        velocity: Vec2::zero(),
        collider: Collider::CapsuleY { half_height: 20_000, radius: 20_000 },
        rigid_body: RigidBody::Dynamic,
        damping: None,
        friction: Some(100),
        restitution: Some(700),
        groups: CollisionGroups::new(GROUP_PLAYER, GROUP_ALL),
        joint: None,
    };
    let arm_l = build_arm(true);
    let arm_r = build_arm(false);
    let eye_r = build_eye(false);
    let eye_l = build_eye(true);
    let player = Player { body, arm_r, arm_l, eyes: [eye_r, eye_l], attached: None };
    assert(player.eyes@ =~= fresh_player().eyes@);
    player
}

/// Whether the state is the one that a respawn leaves: a fresh rig and nothing
/// of the web.
pub open spec fn is_respawned(p: ControlsInput, q: WebWorld, shapes: Seq<ShapeEntity>) -> bool {
    &&& !p.respawn_player.0
    &&& !p.failed_shot.0
    &&& p.web_connection_entities.len() == 0
    &&& q.player is Some
    &&& is_fresh_player(q.player->0)
    &&& q.shooting is None
    &&& q.web_parts.len() == 0
    &&& q.web_shots.len() == 0
    &&& q.web_connections.len() == 0
    &&& forall|i: int| 0 <= i < shapes.len() ==> (#[trigger] shapes[i]).body.joint is None
}

/// The state after the player has been built anew, if that was asked for.
///
/// A respawn takes away the old rig and everything of the web, whatever state
/// they were in, and puts a fresh rig in their place. What it does not touch
/// stays: the input of the frame, the count of the restart key, and the shapes
/// but for their hinges. Where no respawn was asked for, nothing changes.
pub open spec fn respawn_after(p: ControlsInput, q: WebWorld, shapes: Seq<ShapeEntity>) -> (
    ControlsInput,
    WebWorld,
    Seq<ShapeEntity>,
) {
    if !p.respawn_player.0 {
        (p, q, shapes)
    } else {
        (
            ControlsInput {
                respawn_player: Respawn(false),
                failed_shot: FailedShot(false),
                web_connection_entities: Seq::empty(),
                ..p
            },
            WebWorld {
                player: Some(fresh_player()),
                shooting: None,
                web_parts: Seq::empty(),
                web_shots: Seq::empty(),
                web_connections: Seq::empty(),
            },
            all_unhinged(shapes),
        )
    }
}

/// Builds the player anew if a respawn has been asked for, and does nothing
/// otherwise.
pub fn player_spawn(
    p: &mut PlayerControlsParam,
    query: &mut PlayerControlsQueries,
    level: &mut Level,
)
    ensures
        final(p)@ == respawn_after(old(p)@, old(query)@, old(level).shapes@).0,
        final(query)@ == respawn_after(old(p)@, old(query)@, old(level).shapes@).1,
        final(level).shapes@ == respawn_after(old(p)@, old(query)@, old(level).shapes@).2,
        web_wf(old(p)@, old(query)@, old(level).shapes@) ==> web_wf(
            final(p)@,
            final(query)@,
            final(level).shapes@,
        ),
{
    if !p.respawn_player.0 {
        return ;
    }
    p.respawn_player = Respawn(false);
    p.failed_shot = FailedShot(false);
    p.web_connection_entities.entities.clear();
    query.web_part_entities.clear();
    query.web_connections.clear();
    query.web_shot_entities.clear();
    query.shooting = None;
    let mut i: usize = 0;
    while i < level.shapes.len()
        invariant
            0 <= i <= level.shapes@.len(),
            level.shapes@.len() == old(level).shapes@.len(),
            forall|k: int| 0 <= k < i ==> level.shapes@[k] == unhinged(old(level).shapes@[k]),
            forall|k: int| i <= k < level.shapes@.len() ==> level.shapes@[k] == old(level).shapes@[k],
        decreases level.shapes@.len() - i,
    {
        let mut shape = level.shapes[i];
        shape.body.joint = None;
        level.shapes[i] = shape;
        i = i + 1;
    }
    query.player = Some(build_player());
    proof {
        let after = respawn_after(old(p)@, old(query)@, old(level).shapes@);
        assert(level.shapes@ =~= after.2);
        assert(p@ =~= after.0);
        assert(query@ =~= after.1);
        lemma_respawn_is_total(old(p)@, old(query)@, old(level).shapes@);
    }
}

/// A respawn always leaves exactly one rig, with one torso, two arms and two
/// eyes, and nothing of the web, whatever the state was before; and a second
/// respawn right after the first changes nothing.
pub proof fn lemma_respawn_is_total(p: ControlsInput, q: WebWorld, shapes: Seq<ShapeEntity>)
    requires
        p.respawn_player.0,
    ensures
        ({
            let (p2, q2, shapes2) = respawn_after(p, q, shapes);
            &&& is_respawned(p2, q2, shapes2)
            &&& web_wf(p2, q2, shapes2)
            &&& phase_of(p2, q2) == WebPhase::Idle
            &&& shapes2.len() == shapes.len()
            &&& respawn_after(ControlsInput { respawn_player: Respawn(true), ..p2 }, q2, shapes2) == (
                p2,
                q2,
                shapes2,
            )
        }),
{
    let (p2, q2, shapes2) = respawn_after(p, q, shapes);
    assert(q2.player->0.eyes[0] == fresh_eye(false));
    assert(q2.player->0.eyes[1] == fresh_eye(true));
    assert(all_unhinged(shapes2) =~= shapes2);
    let again = respawn_after(ControlsInput { respawn_player: Respawn(true), ..p2 }, q2, shapes2);
    assert(again.0 =~= p2);
    assert(again.1 =~= q2);
}

} // verus!
