//! What happens once the ray that looks for a surface has been cast.
//!
//! A ray that meets nothing lets the shot's mark grow. A ray that meets a
//! shape the web does not stick to fails the shot. A ray that meets a shape
//! the web sticks to builds the web: a chain of small balls from the hand to
//! the point that was hit, each hinged to the one before it, the last one
//! hinged to the shape.

use vstd::prelude::*;
use crate::editor::components::ShapeEntity;
use crate::game::level::Level;
use crate::game::player::components::{Attached, FailedShot, Player, WebPart};
use crate::game::player::controls::phase::{lemma_raycast_keeps_wf, phase_of, web_wf, WebPhase};
use crate::game::player::controls::controls::{
    stretch_first, ControlsInput, PlayerControlsParam, PlayerControlsQueries, WebWorld,
    HAND_OFFSET,
};
use crate::geometry::{Transform, Vec2};
use crate::math::{
    ceil_div, ceil_sqrt, isqrt_ceil, lemma_ceil_div_least, lemma_ceil_sqrt_least,
    lemma_square_monotone,
    saturate, saturated,
};
use crate::physics::{
    Body, Collider, CollisionGroups, Damping, Entity, ImpulseJoint, RayIntersection,
    RevoluteJoint, RigidBody, GROUP_PLAYER,
};

verus! {

/// The diameter of a segment of the web.
pub const SEGMENT_DIAMETER: i64 = 8_000;

/// The radius of a segment of the web.
pub const SEGMENT_RADIUS: i64 = 4_000;

/// By how much the web's minimum length falls short of the distance at which
/// the surface was hit.
pub const WEB_SLACK: i64 = 150_000;

/// The least minimum length of a web.
pub const MIN_WEB_LENGTH: i64 = 40_000;

/// The density of a segment, in thousandths.
pub const SEGMENT_DENSITY: i64 = 100;

/// The damping of a segment, linear and angular alike, in thousandths.
pub const SEGMENT_DAMPING: i64 = 5_000;

/// The groups a segment collides with: every group but the player's.
pub const SEGMENT_FILTERS: u32 = 0b1111_1101;

/// The collider of a segment.
pub open spec fn spec_segment_collider() -> Collider {
    Collider::Ball { radius: SEGMENT_RADIUS }
}

/// The collider of a segment.
#[verifier::when_used_as_spec(spec_segment_collider)]
pub fn segment_collider() -> (r: Collider)
    ensures
        r == spec_segment_collider(),
{
    Collider::Ball { radius: SEGMENT_RADIUS }
}

/// The body of a segment at `part`: a dynamic ball in the player's group.
pub open spec fn spec_segment_body(part: WebPart) -> Body {
    Body {
        transform: Transform::spec_from_translation(part.translation),
        depth: 0,
        velocity: Vec2::spec_zero(),
        collider: spec_segment_collider(),
        rigid_body: RigidBody::Dynamic,
        damping: Some(Damping { linear_damping: SEGMENT_DAMPING, angular_damping: SEGMENT_DAMPING }),
        friction: None,
        restitution: None,
        groups: CollisionGroups { memberships: GROUP_PLAYER, filters: SEGMENT_FILTERS },
        joint: Some(part.joint),
    }
}

/// The body of a segment, as the engine is to build it.
#[verifier::when_used_as_spec(spec_segment_body)]
pub fn segment_body(part: WebPart) -> (r: Body)
    ensures
        r == spec_segment_body(part),
{
    Body {
        transform: Transform::from_translation(part.translation),
        depth: 0,
        velocity: Vec2::zero(),
        collider: segment_collider(),
        rigid_body: RigidBody::Dynamic,
        damping: Some(Damping { linear_damping: SEGMENT_DAMPING, angular_damping: SEGMENT_DAMPING }),
        friction: None,
        restitution: None,
        groups: CollisionGroups::new(GROUP_PLAYER, SEGMENT_FILTERS),
        joint: Some(part.joint),
    }
}

/// The number of segments of a web from `hand` to `point`: the distance
/// divided by the diameter of a segment, rounded up.
pub open spec fn segment_count_of(hand: Vec2, point: Vec2) -> int {
    ceil_div(ceil_sqrt(point.spec_minus(hand).spec_norm_sq()), SEGMENT_DIAMETER as int)
}

/// `segment_count_of`, pinned into `u32`.
pub open spec fn spec_segment_count(hand: Vec2, point: Vec2) -> u32 {
    if segment_count_of(hand, point) > u32::MAX {
        u32::MAX
    } else {
        segment_count_of(hand, point) as u32
    }
}

/// `segment_count_of(hand, point)` is the distance from `hand` to `point`
/// divided by the diameter of a segment and rounded up: `k` segments laid end
/// to end reach from the one to the other if and only if `k` is at least that
/// number.
pub proof fn lemma_segment_count_is_ceiling(hand: Vec2, point: Vec2, k: int)
    requires
        0 <= k,
    ensures
        0 <= segment_count_of(hand, point),
        (k * SEGMENT_DIAMETER) * (k * SEGMENT_DIAMETER) >= point.spec_minus(hand).spec_norm_sq() <==> k
            >= segment_count_of(hand, point),
{
    let d2 = point.spec_minus(hand).spec_norm_sq();
    let v = point.spec_minus(hand);
    assert(d2 >= 0) by (nonlinear_arith)
        requires
            d2 == v.x * v.x + v.y * v.y,
    ;
    lemma_ceil_sqrt_least(d2, k * SEGMENT_DIAMETER);
    lemma_ceil_div_least(ceil_sqrt(d2), SEGMENT_DIAMETER as int, k);
}

/// The number of segments of a web from `hand` to `point`.
#[verifier::when_used_as_spec(spec_segment_count)]
pub fn segment_count(hand: Vec2, point: Vec2) -> (n: u32)
    ensures
        n == spec_segment_count(hand, point),
{
    let length: u64 = isqrt_ceil(point.minus(hand).norm_sq());
    let count: u64 = ((length as u128 + SEGMENT_DIAMETER as u128 - 1) / (SEGMENT_DIAMETER as u128)) as u64;
    if count > u32::MAX as u64 {
        u32::MAX
    } else {
        count as u32
    }
}

/// The body on the near side of the hinge of the `k`-th new segment, where the
/// web had `base` segments before: the left arm for the first, else the
/// segment before it.
pub open spec fn chain_parent(base: int, k: int) -> Entity {
    if k <= 0 {
        Entity::ArmLeft
    } else {
        Entity::WebPart((base + k - 1) as usize)
    }
}

/// The hinge between the hand and the first segment.
pub open spec fn first_joint() -> RevoluteJoint {
    RevoluteJoint {
        local_anchor1: Vec2 { x: HAND_OFFSET, y: 0 },
        local_anchor2: Vec2 { x: (-SEGMENT_DIAMETER) as i64, y: 0 },
    }
}

/// The hinge between two neighbouring segments of a web of `n` segments from
/// `hand` to `point`: at the centre of the one, and one spacing back towards
/// the hand from the centre of the other.
pub open spec fn middle_joint(hand: Vec2, point: Vec2, n: u32) -> RevoluteJoint {
    RevoluteJoint {
        local_anchor1: Vec2::spec_zero(),
        local_anchor2: hand.spec_minus(point).spec_scaled(1, n as i64),
    }
}

/// The `k`-th new segment, counting from 0: `k + 1` spacings along the line
/// from `hand` to `point`.
pub open spec fn chain_part(base: int, hand: Vec2, point: Vec2, n: u32, k: int) -> WebPart {
    WebPart {
        translation: hand.spec_plus(point.spec_minus(hand).spec_scaled((k + 1) as i64, n as i64)),
        joint: ImpulseJoint {
            parent: chain_parent(base, k),
            data: if k == 0 {
                first_joint()
            } else {
                middle_joint(hand, point, n)
            },
        },
    }
}

/// How many segments are spawned for a web of `n` segments: one less, the
/// last stretch being the hinge on the surface.
pub open spec fn spawned_count(n: u32) -> nat {
    if n >= 1 {
        (n - 1) as nat
    } else {
        0
    }
}

/// The new segments of a web of `n` segments from `hand` to `point`.
pub open spec fn chain(base: int, hand: Vec2, point: Vec2, n: u32) -> Seq<WebPart> {
    Seq::new(spawned_count(n), |k: int| chain_part(base, hand, point, n, k))
}

/// The names of the new segments.
pub open spec fn chain_entities(base: int, n: u32) -> Seq<Entity> {
    Seq::new(spawned_count(n), |k: int| Entity::WebPart((base + k) as usize))
}

/// Where the web is tied to the shape, in the shape's own frame: the point
/// that was hit, moved outwards along the normal by the radius of a segment.
pub open spec fn stick_point(shape: Transform, hit: RayIntersection) -> Vec2 {
    shape.rotation.spec_inverse().spec_rotate(
        hit.point.spec_minus(shape.translation).spec_plus(hit.normal.spec_along(SEGMENT_RADIUS)),
    )
}

/// The hinge that ties the web to the shape: from the centre of the last
/// segment or, where the web has no segment, from the hand.
pub open spec fn hit_joint(base: int, n: u32, shape: Transform, hit: RayIntersection) -> ImpulseJoint {
    ImpulseJoint {
        parent: chain_parent(base, spawned_count(n) as int),
        data: RevoluteJoint {
            local_anchor1: if spawned_count(n) == 0 {
                Vec2 { x: HAND_OFFSET, y: 0 }
            } else {
                Vec2::spec_zero()
            },
            local_anchor2: stick_point(shape, hit),
        },
    }
}

/// The minimum length of a web that took hold at the distance `toi`.
pub open spec fn min_length_for(toi: i64) -> i64 {
    if saturated(toi - WEB_SLACK) < MIN_WEB_LENGTH {
        MIN_WEB_LENGTH
    } else {
        saturated(toi - WEB_SLACK)
    }
}

/// The hold of a web that was shot from `hand` and took hold at `hit`.
pub open spec fn hold_of(cursor_pos: Vec2, hand: Vec2, hit: RayIntersection) -> Attached {
    Attached {
        hit_point: hit.point,
        start_cursor_pos: cursor_pos,
        num_segments: spec_segment_count(hand, hit.point),
        min_length: min_length_for(hit.toi),
    }
}

/// A shape with the web tied to it.
pub open spec fn hinged(shape: ShapeEntity, joint: ImpulseJoint) -> ShapeEntity {
    ShapeEntity { body: Body { joint: Some(joint), ..shape.body }, ..shape }
}

/// The state after the web has taken hold of the shape `hit` at `x`.
pub open spec fn attached_after(
    p: ControlsInput,
    q: WebWorld,
    shapes: Seq<ShapeEntity>,
    hit: int,
    x: RayIntersection,
    hand: Vec2,
) -> (ControlsInput, WebWorld, Seq<ShapeEntity>) {
    let n = spec_segment_count(hand, x.point);
    let base = q.web_parts.len() as int;
    (
        ControlsInput {
            failed_shot: FailedShot(false),
            web_connection_entities: p.web_connection_entities + chain_entities(base, n),
            ..p
        },
        WebWorld {
            player: Some(Player { attached: Some(hold_of(p.cursor.pos, hand, x)), ..q.player->0 }),
            web_parts: q.web_parts + chain(base, hand, x.point, n),
            web_shots: Seq::empty(),
            ..q
        },
        shapes.update(hit, hinged(shapes[hit], hit_joint(base, n, shapes[hit].body.transform, x))),
    )
}

/// The state after the ray has been dealt with. `raycast` names the shape that
/// the ray met and says where; `hand_l_position` is where the ray began.
/// Without a player or without a shot nothing happens.
pub open spec fn raycast_after(
    p: ControlsInput,
    q: WebWorld,
    shapes: Seq<ShapeEntity>,
    raycast: Option<(usize, RayIntersection)>,
    hand_l_position: Vec2,
) -> (ControlsInput, WebWorld, Seq<ShapeEntity>) {
    if q.player is None || q.shooting is None {
        (p, q, shapes)
    } else {
        match raycast {
            Some((hit, x)) => {
                if !shapes[hit as int].shape.stickable {
                    (ControlsInput { failed_shot: FailedShot(true), ..p }, q, shapes)
                } else {
                    attached_after(p, q, shapes, hit as int, x, hand_l_position)
                }
            },
            None => (
                p,
                WebWorld { web_shots: stretch_first(q.web_shots, q.shooting->0, hand_l_position), ..q },
                shapes,
            ),
        }
    }
}

/// Spawns the segments of a web of `n` segments from `hand` to `point`.
fn spawn_chain(
    parts: &mut Vec<WebPart>,
    entities: &mut Vec<Entity>,
    hand: Vec2,
    point: Vec2,
    n: u32,
)
    ensures
        final(parts)@ == old(parts)@ + chain(old(parts)@.len() as int, hand, point, n),
        final(entities)@ == old(entities)@ + chain_entities(old(parts)@.len() as int, n),
{
    let ghost base = parts@.len() as int;
    let span = point.minus(hand);
    let middle = RevoluteJoint {
        local_anchor1: Vec2::zero(),
        local_anchor2: hand.minus(point).scaled(1, if n == 0 { 1 } else { n as i64 }),
    };
    let first = RevoluteJoint {
        local_anchor1: Vec2 { x: HAND_OFFSET, y: 0 },
        local_anchor2: Vec2 { x: -SEGMENT_DIAMETER, y: 0 },
    };
    let mut k: u32 = 0;
    while n >= 1 && k < n - 1
        invariant
            n >= 1 ==> k <= n - 1,
            n == 0 ==> k == 0,
            parts@.len() == base + k,
            entities@.len() == old(entities)@.len() + k,
            n >= 1 ==> middle == middle_joint(hand, point, n),
            first == first_joint(),
            span == point.spec_minus(hand),
            base == old(parts)@.len(),
            forall|j: int| 0 <= j < base ==> parts@[j] == old(parts)@[j],
            forall|j: int|
                base <= j < base + k ==> parts@[j] == chain_part(base, hand, point, n, j - base),
            forall|j: int| 0 <= j < old(entities)@.len() ==> entities@[j] == old(entities)@[j],
            forall|j: int|
                old(entities)@.len() <= j < old(entities)@.len() + k ==> entities@[j]
                    == Entity::WebPart((base + j - old(entities)@.len()) as usize),
        decreases n - k,
    {
        let index: usize = parts.len();
        let pos = hand.plus(span.scaled(k as i64 + 1, n as i64));
        let joint = if k == 0 {
            ImpulseJoint::new(Entity::ArmLeft, first)
        } else {
            ImpulseJoint::new(Entity::WebPart(index - 1), middle)
        };
        parts.push(WebPart { translation: pos, joint });
        entities.push(Entity::WebPart(index));
        k = k + 1;
    }
    assert(parts@ =~= old(parts)@ + chain(base, hand, point, n));
    assert(entities@ =~= old(entities)@ + chain_entities(base, n));
}

/// Deals with what the ray met.
///
/// `raycast` is `None` where the ray met nothing, else the place of the shape
/// in the level and the point of the hit.
pub fn handle_raycast(
    p: &mut PlayerControlsParam,
    query: &mut PlayerControlsQueries,
    level: &mut Level,
    raycast: Option<(usize, RayIntersection)>,
    hand_l_position: Vec2,
)
    requires
        raycast matches Some(hit) ==> hit.0 < old(level).shapes@.len(),
    ensures
        final(p)@ == raycast_after(old(p)@, old(query)@, old(level).shapes@, raycast, hand_l_position).0,
        final(query)@ == raycast_after(
            old(p)@,
            old(query)@,
            old(level).shapes@,
            raycast,
            hand_l_position,
        ).1,
        final(level).shapes@ == raycast_after(
            old(p)@,
            old(query)@,
            old(level).shapes@,
            raycast,
            hand_l_position,
        ).2,
        web_wf(old(p)@, old(query)@, old(level).shapes@) && phase_of(old(p)@, old(query)@)
            != WebPhase::Attached ==> web_wf(final(p)@, final(query)@, final(level).shapes@),
{
    proof {
        if web_wf(old(p)@, old(query)@, old(level).shapes@) && (phase_of(old(p)@, old(query)@)
            == WebPhase::Shooting || phase_of(old(p)@, old(query)@) == WebPhase::Failed) {
            lemma_raycast_keeps_wf(old(p)@, old(query)@, old(level).shapes@, raycast, hand_l_position);
        }
    }
    let shooting = match query.shooting {
        Some(shooting) => shooting,
        None => {
            return ;
        },
    };
    if query.player.is_none() {
        return ;
    }
    match raycast {
        Some((hit_entity, intersection)) => {
            if !level.shapes[hit_entity].shape.stickable {
                p.failed_shot = FailedShot(true);
                assert(p@ =~= raycast_after(
                    old(p)@,
                    old(query)@,
                    old(level).shapes@,
                    raycast,
                    hand_l_position,
                ).0);
            } else {
                p.failed_shot = FailedShot(false);
                let num_balls: u32 = segment_count(hand_l_position, intersection.point);
                let ghost base = query.web_part_entities@.len() as int;
                let had_parts: usize = query.web_part_entities.len();
                spawn_chain(
                    &mut query.web_part_entities,
                    &mut p.web_connection_entities.entities,
                    hand_l_position,
                    intersection.point,
                    num_balls,
                );
                let spawned: usize = query.web_part_entities.len() - had_parts;
                let hit_entity_transform = level.shapes[hit_entity].body.transform;
                let local_raw_stick_point = intersection.point.minus(
                    hit_entity_transform.translation,
                ).plus(intersection.normal.along(SEGMENT_RADIUS));
                let local_stick_point = hit_entity_transform.rotation.inverse().rotate(
                    local_raw_stick_point,
                );
                let hit_joint = if spawned == 0 {
                    ImpulseJoint::new(
                        Entity::ArmLeft,
                        RevoluteJoint {
                            local_anchor1: Vec2 { x: HAND_OFFSET, y: 0 },
                            local_anchor2: local_stick_point,
                        },
                    )
                } else {
                    ImpulseJoint::new(
                        Entity::WebPart(query.web_part_entities.len() - 1),
                        RevoluteJoint { local_anchor1: Vec2::zero(), local_anchor2: local_stick_point },
                    )
                };
                let mut shape = level.shapes[hit_entity];
                shape.body.joint = Some(hit_joint);
                level.shapes[hit_entity] = shape;
                query.web_shot_entities.clear();
                let slackened: i64 = saturate(intersection.toi as i128 - WEB_SLACK as i128);
                let attached = Attached {
                    hit_point: intersection.point,
                    start_cursor_pos: p.cursor.pos,
                    num_segments: num_balls,
                    min_length: if slackened < MIN_WEB_LENGTH { MIN_WEB_LENGTH } else { slackened },
                };
                match &mut query.player {
                    Some(player) => {
                        player.attached = Some(attached);
                    },
                    None => {},
                }
                proof {
                    let after = attached_after(
                        old(p)@,
                        old(query)@,
                        old(level).shapes@,
                        hit_entity as int,
                        intersection,
                        hand_l_position,
                    );
                    assert(spawned == spawned_count(num_balls));
                    assert(p@ =~= after.0);
                    assert(query@ =~= after.1);
                    assert(level.shapes@ =~= after.2);
                }
            }
        },
        None => {
            shooting.stretch_indicator(hand_l_position, &mut query.web_shot_entities);
            assert(query@ =~= raycast_after(
                old(p)@,
                old(query)@,
                old(level).shapes@,
                raycast,
                hand_l_position,
            ).1);
        },
    }
}

/// A ray that meets a shape the web does not stick to fails the shot and
/// builds nothing: no segment is spawned, no hinge is made, the player has no
/// hold, and the shot stays as it was, to be drawn back.
pub proof fn lemma_non_stickable_fails(
    p: ControlsInput,
    q: WebWorld,
    shapes: Seq<ShapeEntity>,
    hit: usize,
    x: RayIntersection,
    hand: Vec2,
)
    requires
        q.player is Some,
        q.shooting is Some,
        hit < shapes.len(),
        !shapes[hit as int].shape.stickable,
    ensures
        ({
            let (p2, q2, shapes2) = raycast_after(p, q, shapes, Some((hit, x)), hand);
            &&& p2.failed_shot.0
            &&& p2.web_connection_entities == p.web_connection_entities
            &&& q2 == q
            &&& shapes2 == shapes
        }),
{
}

/// A ray that meets a shape the web sticks to builds the whole web at once.
/// The number of its segments is the distance from the hand to the point that
/// was hit, divided by the diameter of a segment and rounded up; one body less
/// is spawned; the first is hinged to the left arm, every other to the one
/// before it, and the shape to the last.
pub proof fn lemma_attach_builds_chain(
    p: ControlsInput,
    q: WebWorld,
    shapes: Seq<ShapeEntity>,
    hit: usize,
    x: RayIntersection,
    hand: Vec2,
)
    requires
        q.player is Some,
        q.shooting is Some,
        hit < shapes.len(),
        shapes[hit as int].shape.stickable,
        1 <= segment_count_of(hand, x.point) <= u32::MAX,
    ensures
        ({
            let (p2, q2, shapes2) = raycast_after(p, q, shapes, Some((hit, x)), hand);
            let n = segment_count_of(hand, x.point);
            let base = q.web_parts.len() as int;
            &&& !p2.failed_shot.0
            &&& q2.player is Some
            &&& q2.player->0.attached is Some
            &&& q2.player->0.attached->0.num_segments == n
            &&& q2.player->0.attached->0.hit_point == x.point
            &&& q2.web_parts.len() == base + n - 1
            &&& forall|j: int| 0 <= j < base ==> q2.web_parts[j] == q.web_parts[j]
            &&& forall|k: int|
                0 <= k < n - 1 ==> (#[trigger] q2.web_parts[base + k]).joint.parent == chain_parent(
                    base,
                    k,
                )
            &&& shapes2.len() == shapes.len()
            &&& shapes2[hit as int].body.joint is Some
            &&& shapes2[hit as int].body.joint->0.parent == chain_parent(base, n - 1)
            &&& forall|j: int| 0 <= j < shapes.len() && j != hit ==> shapes2[j] == shapes[j]
            &&& q2.web_shots.len() == 0
        }),
{
}

/// The `j`-th point of the line along which a web of `n` segments is laid out
/// from `hand` to `point`: the hand itself for 0, the centre of the `j`-th
/// segment up to `n - 1`, and the point that was hit for `n`.
pub open spec fn chain_node(hand: Vec2, point: Vec2, n: u32, j: int) -> Vec2 {
    hand.spec_plus(point.spec_minus(hand).spec_scaled(j as i64, n as i64))
}

/// Whether the coordinates of `v` are small enough for sums and differences of
/// two such vectors to be exact.
pub open spec fn in_reach(v: Vec2) -> bool {
    -0x2000_0000_0000_0000 <= v.x <= 0x2000_0000_0000_0000 && -0x2000_0000_0000_0000 <= v.y
        <= 0x2000_0000_0000_0000
}

/// One step along one axis: the two neighbouring points are apart by the
/// `n`-th part of the whole way, give or take less than one unit.
proof fn lemma_step_along_axis(t: int, j: int, n: int)
    requires
        n > 0,
    ensures
        ({
            let step = t * (j + 1) / n - t * j / n;
            -n < n * step - t < n
        }),
{
    let a = t * j / n;
    let b = t * (j + 1) / n;
    assert(a * n <= t * j < (a + 1) * n) by (nonlinear_arith)
        requires
            a == t * j / n,
            n > 0,
    ;
    assert(b * n <= t * (j + 1) < (b + 1) * n) by (nonlinear_arith)
        requires
            b == t * (j + 1) / n,
            n > 0,
    ;
    assert(t * (j + 1) == t * j + t) by (nonlinear_arith);
    assert(n * (b - a) == b * n - a * n) by (nonlinear_arith);
    assert((a + 1) * n == a * n + n) by (nonlinear_arith);
    assert((b + 1) * n == b * n + n) by (nonlinear_arith);
}

/// A number within `n` of `t` has a square no larger than that of `|t| + n`.
proof fn lemma_square_near(x: int, t: int, a: int, n: int)
    requires
        -n < x - t < n,
        a == t || a == -t,
        a >= 0,
    ensures
        x * x <= (a + n) * (a + n),
{
    let size: int = if x < 0 { -x } else { x };
    assert(size <= a + n);
    lemma_square_monotone(size, a + n);
    assert(size * size == x * x) by (nonlinear_arith)
        requires
            size == x || size == -x,
    ;
}

/// The segments of a web are laid out evenly: the line begins at the hand and
/// ends at the point that was hit, the centre of each segment is one of its
/// points, and two neighbouring points are never further apart than the
/// diameter of a segment and two thousandths of a pixel.
pub proof fn lemma_chain_is_evenly_spaced(hand: Vec2, point: Vec2, base: int, j: int)
    requires
        in_reach(hand),
        in_reach(point),
        1 <= segment_count_of(hand, point) <= u32::MAX,
        0 <= j < segment_count_of(hand, point),
    ensures
        ({
            let n = spec_segment_count(hand, point);
            let here = chain_node(hand, point, n, j);
            let next = chain_node(hand, point, n, j + 1);
            &&& chain_node(hand, point, n, 0) == hand
            &&& chain_node(hand, point, n, n as int) == point
            &&& j + 1 < n ==> chain_part(base, hand, point, n, j).translation == next
            &&& (next.x - here.x) * (next.x - here.x) + (next.y - here.y) * (next.y - here.y) <= (
            SEGMENT_DIAMETER + 2) * (SEGMENT_DIAMETER + 2)
        }),
{
    let n = segment_count_of(hand, point);
    let count = spec_segment_count(hand, point);
    assert(count == n);
    let span = point.spec_minus(hand);
    let sx = span.x as int;
    let sy = span.y as int;
    assert(sx == point.x - hand.x && sy == point.y - hand.y);
    let d = SEGMENT_DIAMETER as int;
    let reach = n * d;
    let d2 = span.spec_norm_sq();
    lemma_segment_count_is_ceiling(hand, point, n);
    assert(reach * reach >= d2);

    // No component of the way is longer than the whole web.
    let ax: int = if sx < 0 { -sx } else { sx };
    let ay: int = if sy < 0 { -sy } else { sy };
    assert(ax * ax == sx * sx && ay * ay == sy * sy) by (nonlinear_arith)
        requires
            ax == sx || ax == -sx,
            ay == sy || ay == -sy,
    ;
    assert(ax * ax >= 0 && ay * ay >= 0) by (nonlinear_arith);
    if ax > reach {
        lemma_square_monotone(reach + 1, ax);
        assert((reach + 1) * (reach + 1) > reach * reach) by (nonlinear_arith)
            requires
                reach >= 0,
        ;
    }
    if ay > reach {
        lemma_square_monotone(reach + 1, ay);
        assert((reach + 1) * (reach + 1) > reach * reach) by (nonlinear_arith)
            requires
                reach >= 0,
        ;
    }
    assert(ax <= reach && ay <= reach);

    // The points themselves, without rounding at the ends of the range.
    let px = sx * j / n;
    let py = sy * j / n;
    let qx = sx * (j + 1) / n;
    let qy = sy * (j + 1) / n;
    lemma_step_along_axis(sx, j, n);
    lemma_step_along_axis(sy, j, n);
    assert(-ax <= px <= ax && -ax <= qx <= ax) by (nonlinear_arith)
        requires
            px == sx * j / n,
            qx == sx * (j + 1) / n,
            0 <= j < n,
            ax == sx || ax == -sx,
            ax >= 0,
    ;
    assert(-ay <= py <= ay && -ay <= qy <= ay) by (nonlinear_arith)
        requires
            py == sy * j / n,
            qy == sy * (j + 1) / n,
            0 <= j < n,
            ay == sy || ay == -sy,
            ay >= 0,
    ;
    let here = chain_node(hand, point, count, j);
    let next = chain_node(hand, point, count, j + 1);
    assert(here.x == hand.x + px && here.y == hand.y + py);
    assert(next.x == hand.x + qx && next.y == hand.y + qy);
    assert(sx * 0 / n == 0 && sy * 0 / n == 0) by (nonlinear_arith)
        requires
            n > 0,
    ;
    assert(sx * n / n == sx && sy * n / n == sy) by (nonlinear_arith)
        requires
            n > 0,
    ;
    assert(chain_node(hand, point, count, 0) == hand);
    assert(chain_node(hand, point, count, n) == point);

    // The step, measured against the diameter.
    let ex = qx - px;
    let ey = qy - py;
    let wx = n * ex;
    let wy = n * ey;
    lemma_square_near(wx, sx, ax, n);
    lemma_square_near(wy, sy, ay, n);
    let whole = ax * ax + ay * ay;
    assert(whole == d2);
    let nax = n * ax;
    let nay = n * ay;
    let nr = n * reach;
    let nn = n * n;
    assert((ax + n) * (ax + n) + (ay + n) * (ay + n) == whole + 2 * nax + 2 * nay + 2 * nn)
        by (nonlinear_arith)
        requires
            whole == ax * ax + ay * ay,
            nax == n * ax,
            nay == n * ay,
            nn == n * n,
    ;
    assert(nax <= nr && nay <= nr) by (nonlinear_arith)
        requires
            nax == n * ax,
            nay == n * ay,
            nr == n * reach,
            ax <= reach,
            ay <= reach,
            n >= 1,
    ;
    assert(reach * reach + 4 * nr + 2 * nn <= nn * ((d + 2) * (d + 2))) by (nonlinear_arith)
        requires
            reach == n * d,
            nr == n * reach,
            nn == n * n,
            n >= 1,
            d >= 0,
    ;
    assert(wx * wx + wy * wy == nn * (ex * ex + ey * ey)) by (nonlinear_arith)
        requires
            wx == n * ex,
            wy == n * ey,
            nn == n * n,
    ;
    let gap = ex * ex + ey * ey;
    let most = (d + 2) * (d + 2);
    assert(nn * gap <= nn * most);
    assert(nn >= 1) by (nonlinear_arith)
        requires
            nn == n * n,
            n >= 1,
    ;
    assert(gap <= most) by (nonlinear_arith)
        requires
            nn * gap <= nn * most,
            nn >= 1,
    ;
}

} // verus!
