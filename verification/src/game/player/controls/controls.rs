//! Shooting the web, reeling it in and letting it go.
//!
//! While the button is held the shot reaches one step further with every
//! frame, steering towards the pointer, until a ray cast from the hand meets a
//! shape or the web is at its full length. `player_controls` does everything
//! up to that ray; `handle_raycast` does what follows once the engine has cast
//! it.

use vstd::prelude::*;
use crate::editor::components::ShapeEntity;
use crate::game::level::Level;
use crate::game::player::components::{
    Attached, FailedShot, FramesRestartKeyHeld, Player, ShootingWeb, WebPart, WebPartConnection,
    WebShotVisual,
};
use crate::game::player::controls::phase::{input_fits, lemma_controls_keep_wf, web_wf};
use crate::game::player::spawn::Respawn;
use crate::geometry::{ratio, Direction, Transform, Vec2, DIRECTION_ONE};
use crate::input::{KeyboardInput, MouseInput};
use crate::math::{
    ceil_div, ceil_div_i64, floor_div, lemma_ceil_div_least, lemma_floor_sqrt_exists,
    lemma_square_monotone, magnitude, mul_div, saturate, saturated, wide_mul,
};
use crate::physics::{
    Body, CollisionGroups, Entity, ImpulseJoint, RayCast, RevoluteJoint, GROUP_ALL, GROUP_LEVEL,
};
use crate::util::Cursor;

verus! {

/// By how much the shot grows with each frame.
pub const STEP_LENGTH: i64 = 100_000;

/// The length beyond which the shot does not grow.
pub const MAX_WEB_LENGTH: i64 = 1_001_000;

/// How far along the left arm the hand lies.
pub const HAND_OFFSET: i64 = 15_000;

/// The side of the square that marks a shot just begun.
pub const INDICATOR_SIZE: i64 = 6_000;

/// The cosine of two degrees, the most the shot turns in one frame.
pub const MAX_TURN_COS: i64 = 999_391;

/// The sine of two degrees.
pub const MAX_TURN_SIN: i64 = 34_899;

/// The number of frames the restart key has to stay down.
pub const RESTART_HOLD_FRAMES: u32 = 45;

/// The diameter of a segment of the web in whole pixels.
pub const SEGMENT_DIAMETER_PIXELS: i64 = 8;

/// The segments of the web in the order of the chain, from the hand outwards.
pub struct WebPartEntities {
    pub entities: Vec<Entity>,
}

/// The input of a frame and the counters that the controls keep.
pub struct PlayerControlsParam {
    pub cursor: Cursor,
    pub mouse: MouseInput,
    pub keyboard: KeyboardInput,
    pub frames_r_key: FramesRestartKeyHeld,
    pub failed_shot: FailedShot,
    pub web_connection_entities: WebPartEntities,
    /// How far the mouse moved in this frame, one entry for each report, with y
    /// growing downwards.
    pub mouse_motion_events: Vec<Vec2>,
    pub respawn_player: Respawn,
}

/// The part of the world that the controls act on.
pub struct PlayerControlsQueries {
    pub player: Option<Player>,
    /// The search in progress. It stays while the web holds and goes when the
    /// button is released.
    pub shooting: Option<ShootingWeb>,
    pub web_part_entities: Vec<WebPart>,
    pub web_shot_entities: Vec<WebShotVisual>,
    pub web_connections: Vec<WebPartConnection>,
}

/// `PlayerControlsParam` as a value.
#[verifier::ext_equal]
pub struct ControlsInput {
    pub cursor: Cursor,
    pub mouse: MouseInput,
    pub keyboard: KeyboardInput,
    pub frames_r_key: FramesRestartKeyHeld,
    pub failed_shot: FailedShot,
    pub web_connection_entities: Seq<Entity>,
    pub mouse_motion_events: Seq<Vec2>,
    pub respawn_player: Respawn,
}

/// `PlayerControlsQueries` as a value.
#[verifier::ext_equal]
pub struct WebWorld {
    pub player: Option<Player>,
    pub shooting: Option<ShootingWeb>,
    pub web_parts: Seq<WebPart>,
    pub web_shots: Seq<WebShotVisual>,
    pub web_connections: Seq<WebPartConnection>,
}

impl View for PlayerControlsParam {
    type V = ControlsInput;

    open spec fn view(&self) -> ControlsInput {
        ControlsInput {
            cursor: self.cursor,
            mouse: self.mouse,
            keyboard: self.keyboard,
            frames_r_key: self.frames_r_key,
            failed_shot: self.failed_shot,
            web_connection_entities: self.web_connection_entities.entities@,
            mouse_motion_events: self.mouse_motion_events@,
            respawn_player: self.respawn_player,
        }
    }
}

impl View for PlayerControlsQueries {
    type V = WebWorld;

    open spec fn view(&self) -> WebWorld {
        WebWorld {
            player: self.player,
            shooting: self.shooting,
            web_parts: self.web_part_entities@,
            web_shots: self.web_shot_entities@,
            web_connections: self.web_connections@,
        }
    }
}

/// Where the web leaves the player: the point `HAND_OFFSET` along the arm.
pub open spec fn hand_of(arm: Transform) -> Vec2 {
    arm.translation.spec_plus(arm.rotation.spec_rotate(Vec2 { x: HAND_OFFSET, y: 0 }))
}

/// Where the web leaves the player.
pub fn hand_position(arm: &Transform) -> (hand: Vec2)
    ensures
        hand == hand_of(*arm),
{
    arm.translation.plus(arm.rotation.rotate(Vec2 { x: HAND_OFFSET, y: 0 }))
}

/// The shot as it begins: aimed from the hand at the pointer, no step taken.
pub open spec fn fresh_shot(aim: Vec2, hand: Vec2) -> ShootingWeb {
    ShootingWeb {
        ray_norm: aim.spec_minus(hand).spec_heading(),
        ray_length: STEP_LENGTH,
        max_length: MAX_WEB_LENGTH,
        steps: 0,
    }
}

/// The mark of a shot just begun: a small square at the hand, turned the way
/// the shot is aimed.
pub open spec fn fresh_indicator(hand: Vec2, ray_norm: Direction) -> WebShotVisual {
    WebShotVisual {
        transform: Transform {
            translation: hand,
            rotation: ray_norm.spec_arc_from_y(),
            scale: Vec2 { x: INDICATOR_SIZE, y: INDICATOR_SIZE },
        },
    }
}

/// On which side of `from` the direction `to` lies: positive to its left.
pub open spec fn side_of(from: Direction, to: Direction) -> i64 {
    saturated(
        ratio(from.x as int, to.y as int, DIRECTION_ONE as int) - ratio(
            from.y as int,
            to.x as int,
            DIRECTION_ONE as int,
        ),
    )
}

/// The rotation by two degrees that turns `from` towards `to`. Where `to` lies
/// straight ahead or straight behind, the turn goes to the left.
pub open spec fn turn_towards(from: Direction, to: Direction) -> Direction {
    Direction {
        x: MAX_TURN_COS,
        y: if side_of(from, to) >= 0 {
            MAX_TURN_SIN
        } else {
            (-MAX_TURN_SIN) as i64
        },
    }
}

/// Whether `goal` lies more than two degrees away from `from`.
pub open spec fn turn_exceeds(from: Direction, goal: Direction) -> bool {
    from.spec_dot(Vec2 { x: goal.x, y: goal.y }) < MAX_TURN_COS
}

/// The direction of the shot after one frame of steering: the goal itself where
/// it is within two degrees, else the old direction turned two degrees towards it.
pub open spec fn steered(from: Direction, goal: Direction) -> Direction {
    if turn_exceeds(from, goal) {
        from.spec_followed_by(turn_towards(from, goal))
    } else {
        goal
    }
}

impl ShootingWeb {
    /// Whether one more step stays within the full length.
    pub open spec fn spec_can_grow(&self) -> bool {
        self.steps < u32::MAX && (self.steps + 1) * self.ray_length <= self.max_length
    }

    /// Whether one more step stays within the full length.
    #[verifier::when_used_as_spec(spec_can_grow)]
    pub fn can_grow(&self) -> (r: bool)
        ensures
            r == self.spec_can_grow(),
    {
        self.steps < u32::MAX && wide_mul(self.steps as i64 + 1, self.ray_length)
            <= self.max_length as i128
    }

    /// How far the shot reaches.
    pub open spec fn spec_reach(&self) -> i64 {
        saturated(self.ray_length * self.steps)
    }

    /// How far the shot reaches.
    #[verifier::when_used_as_spec(spec_reach)]
    pub fn reach(&self) -> (r: i64)
        ensures
            r == self.spec_reach(),
    {
        saturate(wide_mul(self.ray_length, self.steps as i64))
    }

    /// The shot one step further, steered towards `goal`.
    pub open spec fn grown(&self, goal: Direction) -> ShootingWeb {
        ShootingWeb { steps: (self.steps + 1) as u32, ray_norm: steered(self.ray_norm, goal), ..*self }
    }

    /// The shot one step shorter, if it has a step left.
    pub open spec fn drawn_back(&self) -> ShootingWeb {
        ShootingWeb {
            steps: if self.steps > 0 {
                (self.steps - 1) as u32
            } else {
                0
            },
            ..*self
        }
    }

    /// The ray that looks for a surface: from the hand along the shot, as far
    /// as the shot reaches, blind to everything but the level's shapes.
    pub open spec fn spec_ray(&self, hand: Vec2) -> RayCast {
        RayCast {
            origin: hand,
            direction: self.ray_norm,
            max_toi: self.spec_reach(),
            solid: true,
            groups: CollisionGroups { memberships: GROUP_ALL, filters: GROUP_LEVEL },
        }
    }

    /// The mark of the shot, stretched from the hand to where the shot reaches:
    /// centred half way and as long as the reach.
    pub open spec fn stretched(&self, hand: Vec2, visual: WebShotVisual) -> WebShotVisual {
        let end = hand.spec_plus(self.ray_norm.spec_along(self.spec_reach()));
        WebShotVisual {
            transform: Transform {
                translation: hand.spec_midpoint(end),
                scale: Vec2 { x: visual.transform.scale.x, y: self.spec_reach() },
                ..visual.transform
            },
        }
    }

    /// Stretches the first mark, if there is one, to where the shot reaches.
    pub fn stretch_indicator(&self, hand: Vec2, web_shots: &mut Vec<WebShotVisual>)
        ensures
            final(web_shots)@ == stretch_first(old(web_shots)@, *self, hand),
    {
        if web_shots.len() > 0 {
            let web_length = self.reach();
            let end_pos = hand.plus(self.ray_norm.along(web_length));
            let mut visual = web_shots[0];
            visual.transform.translation = hand.midpoint(end_pos);
            visual.transform.scale.y = web_length;
            web_shots[0] = visual;
            assert(web_shots@ =~= stretch_first(old(web_shots)@, *self, hand));
        }
    }
}

/// The marks with the first of them stretched to where `shooting` reaches.
pub open spec fn stretch_first(web_shots: Seq<WebShotVisual>, shooting: ShootingWeb, hand: Vec2) -> Seq<
    WebShotVisual,
> {
    if web_shots.len() > 0 {
        web_shots.update(0, shooting.stretched(hand, web_shots[0]))
    } else {
        web_shots
    }
}

/// The direction of the shot after one frame of steering.
pub fn steer(from: Direction, goal: Direction) -> (r: Direction)
    ensures
        r == steered(from, goal),
{
    if from.dot(Vec2 { x: goal.x, y: goal.y }) < MAX_TURN_COS {
        let a: i64 = mul_div(from.x, goal.y, DIRECTION_ONE);
        let b: i64 = mul_div(from.y, goal.x, DIRECTION_ONE);
        let side: i64 = saturate(a as i128 - b as i128);
        let turn = Direction { x: MAX_TURN_COS, y: if side >= 0 { MAX_TURN_SIN } else { -MAX_TURN_SIN } };
        from.followed_by(turn)
    } else {
        goal
    }
}

/// The sum of the reports, taken in order.
pub open spec fn motion_sum(events: Seq<Vec2>) -> Vec2
    decreases events.len(),
{
    if events.len() == 0 {
        Vec2::spec_zero()
    } else {
        motion_sum(events.drop_last()).spec_plus(events.last())
    }
}

/// The way the mouse went in the plane of the world, where y grows upwards.
pub open spec fn pull_of(events: Seq<Vec2>) -> Vec2 {
    let total = motion_sum(events);
    Vec2 { x: total.x, y: saturated(-total.y) }
}

/// The way the mouse went in the plane of the world.
pub fn pull(events: &Vec<Vec2>) -> (r: Vec2)
    ensures
        r == pull_of(events@),
{
    let mut total = Vec2::zero();
    let mut i: usize = 0;
    while i < events.len()
        invariant
            0 <= i <= events@.len(),
            total == motion_sum(events@.take(i as int)),
        decreases events@.len() - i,
    {
        assert(events@.take(i + 1).drop_last() =~= events@.take(i as int));
        total = total.plus(events[i]);
        i = i + 1;
    }
    assert(events@.take(i as int) =~= events@);
    Vec2 { x: total.x, y: saturate(-(total.y as i128)) }
}

/// The component `c` of a vector of length `len`, once the vector has been
/// brought to the length `target`: `c * target / len`, rounded away from zero.
pub open spec fn stretched_part(c: i64, target: i64, len: i64) -> i64 {
    saturated(
        if c < 0 {
            -ceil_div(-c * target, len as int)
        } else {
            ceil_div(c * target, len as int)
        },
    )
}

/// The vector `anchor`, whose length rounds down to `len`, brought to the
/// length `target` along its own direction. Each component is rounded away from
/// zero, so that the result is no shorter than `target`. A vector without
/// length is laid along the x axis.
pub open spec fn resized(anchor: Vec2, len: i64, target: i64) -> Vec2 {
    if len <= 0 {
        Vec2 { x: target, y: 0 }
    } else {
        Vec2 { x: stretched_part(anchor.x, target, len), y: stretched_part(anchor.y, target, len) }
    }
}

/// The anchor of a segment's hinge after the web has been reeled in by `shrink`
/// for each segment: shorter by that much along its own direction, but no
/// shorter than `min_joint`.
pub open spec fn retracted(anchor: Vec2, shrink: i64, min_joint: i64) -> Vec2 {
    let len = anchor.spec_length();
    let wanted = saturated(len - shrink);
    resized(
        anchor,
        len,
        if wanted < min_joint {
            min_joint
        } else {
            wanted
        },
    )
}

/// One component of `resized`.
fn stretch_part(c: i64, target: i64, len: i64) -> (r: i64)
    requires
        target >= 0,
        len > 0,
    ensures
        r == stretched_part(c, target, len),
{
    let size: u128 = magnitude(c);
    proof {
        assert(size * target <= 0x8000_0000_0000_0000 * 0x8000_0000_0000_0000) by (nonlinear_arith)
            requires
                0 <= size <= 0x8000_0000_0000_0000,
                0 <= target <= 0x8000_0000_0000_0000,
        ;
        assert(size * target >= 0) by (nonlinear_arith)
            requires
                0 <= size,
                0 <= target,
        ;
        if c < 0 {
            assert(-c * target == size * target) by (nonlinear_arith)
                requires
                    size == -c,
            ;
        } else {
            assert(c * target == size * target) by (nonlinear_arith)
                requires
                    size == c,
            ;
        }
    }
    let product: u128 = size * (target as u128);
    let q: u128 = (product + (len as u128) - 1) / (len as u128);
    proof {
        assert(0 <= (product + len - 1) / (len as int) <= product) by (nonlinear_arith)
            requires
                0 <= product,
                0 < len,
        ;
    }
    if c < 0 {
        saturate(-(q as i128))
    } else {
        saturate(q as i128)
    }
}

/// The anchor of a segment's hinge after the web has been reeled in.
fn retract(anchor: Vec2, shrink: i64, min_joint: i64) -> (r: Vec2)
    requires
        min_joint >= 0,
    ensures
        r == retracted(anchor, shrink, min_joint),
{
    let len = anchor.length();
    let wanted = saturate(len as i128 - shrink as i128);
    let target = if wanted < min_joint { min_joint } else { wanted };
    if len <= 0 {
        Vec2 { x: target, y: 0 }
    } else {
        Vec2 { x: stretch_part(anchor.x, target, len), y: stretch_part(anchor.y, target, len) }
    }
}

impl Attached {
    /// How far the mouse went towards the player along the web.
    pub open spec fn pull_distance(&self, hand: Vec2, events: Seq<Vec2>) -> i64 {
        hand.spec_minus(self.hit_point).spec_heading().spec_dot(pull_of(events))
    }

    /// By how much each hinge is shortened: the pull divided by the number of
    /// segments and by the diameter of a segment in pixels, rounded down.
    pub open spec fn shrink(&self, hand: Vec2, events: Seq<Vec2>) -> i64 {
        (self.pull_distance(hand, events) as int / (self.num_segments * SEGMENT_DIAMETER_PIXELS)) as i64
    }

    /// The length below which no hinge is shortened: the least whole length
    /// that is no less than the web's minimum divided by the number of segments.
    pub open spec fn min_joint_length(&self) -> i64 {
        ceil_div(if self.min_length < 0 { 0 } else { self.min_length as int }, self.num_segments as int) as i64
    }
}

/// A segment with its hinge reeled in.
pub open spec fn reeled_part(part: WebPart, shrink: i64, min_joint: i64) -> WebPart {
    WebPart {
        joint: ImpulseJoint {
            data: RevoluteJoint {
                local_anchor2: retracted(part.joint.data.local_anchor2, shrink, min_joint),
                ..part.joint.data
            },
            ..part.joint
        },
        ..part
    }
}

/// The segments after the mouse has moved while the web holds: every hinge is
/// reeled in by the same amount. A web of no segments is left as it is.
pub open spec fn reeled(parts: Seq<WebPart>, attached: Attached, hand: Vec2, events: Seq<Vec2>) -> Seq<
    WebPart,
> {
    if attached.num_segments == 0 {
        parts
    } else {
        Seq::new(
            parts.len(),
            |i: int| reeled_part(parts[i], attached.shrink(hand, events), attached.min_joint_length()),
        )
    }
}

/// Reels the web in by what the mouse has moved.
fn reel_in(parts: &mut Vec<WebPart>, attached: Attached, hand: Vec2, events: &Vec<Vec2>)
    ensures
        final(parts)@ == reeled(old(parts)@, attached, hand, events@),
{
    if attached.num_segments == 0 {
        return ;
    }
    let move_dist: i64 = hand.minus(attached.hit_point).heading().dot(pull(events));
    let divisor: i128 = attached.num_segments as i128 * SEGMENT_DIAMETER_PIXELS as i128;
    let subtract_wide: i128 = floor_div(move_dist as i128, divisor);
    proof {
        assert(-0x8000_0000_0000_0000 <= move_dist as int / divisor as int <= 0x7fff_ffff_ffff_ffff)
            by (nonlinear_arith)
            requires
                -0x8000_0000_0000_0000 <= move_dist <= 0x7fff_ffff_ffff_ffff,
                divisor >= 1,
        ;
    }
    let subtract: i64 = subtract_wide as i64;
    let floor: i64 = if attached.min_length < 0 { 0 } else { attached.min_length };
    let min_joint_length: i64 = ceil_div_i64(floor, attached.num_segments as i64);
    let mut i: usize = 0;
    while i < parts.len()
        invariant
            0 <= i <= parts@.len(),
            parts@.len() == old(parts)@.len(),
            min_joint_length >= 0,
            forall|k: int| 0 <= k < i ==> parts@[k] == reeled_part(old(parts)@[k], subtract, min_joint_length),
            forall|k: int| i <= k < parts@.len() ==> parts@[k] == old(parts)@[k],
        decreases parts@.len() - i,
    {
        let mut part = parts[i];
        part.joint.data.local_anchor2 = retract(part.joint.data.local_anchor2, subtract, min_joint_length);
        parts[i] = part;
        i = i + 1;
    }
    assert(parts@ =~= reeled(old(parts)@, attached, hand, events@));
}

/// The state after the part of a frame that deals with the shot: a press
/// begins one, and a held button reels the web in, draws a failed shot back or
/// lets the shot grow.
pub open spec fn shot_phase(p: ControlsInput, q: WebWorld) -> (ControlsInput, WebWorld) {
    let player = q.player->0;
    let hand = hand_of(player.arm_l.transform);
    if p.mouse.left.just_pressed {
        let shot = fresh_shot(p.cursor.world_pos, hand);
        (
            p,
            WebWorld {
                shooting: Some(shot),
                web_shots: q.web_shots.push(fresh_indicator(hand, shot.ray_norm)),
                ..q
            },
        )
    } else if p.mouse.left.pressed {
        if player.attached is Some {
            if p.mouse_motion_events.len() > 0 {
                (
                    p,
                    WebWorld {
                        web_parts: reeled(q.web_parts, player.attached->0, hand, p.mouse_motion_events),
                        ..q
                    },
                )
            } else {
                (p, q)
            }
        } else if q.shooting is Some {
            let shooting = q.shooting->0;
            if p.failed_shot.0 {
                let shorter = shooting.drawn_back();
                (
                    p,
                    WebWorld {
                        shooting: Some(shorter),
                        web_shots: stretch_first(q.web_shots, shorter, hand),
                        ..q
                    },
                )
            } else if shooting.spec_can_grow() {
                (
                    p,
                    WebWorld {
                        shooting: Some(shooting.grown(p.cursor.world_pos.spec_minus(hand).spec_heading())),
                        ..q
                    },
                )
            } else {
                (ControlsInput { failed_shot: FailedShot(true), ..p }, q)
            }
        } else {
            (p, q)
        }
    } else {
        (p, q)
    }
}

/// Whether the frame casts a ray: the button is held since an earlier frame and
/// not let go, and a shot that has not failed is looking for a surface.
pub open spec fn casts_ray(p: ControlsInput, q: WebWorld) -> bool {
    &&& q.player is Some
    &&& !p.mouse.left.just_pressed
    &&& p.mouse.left.pressed
    &&& !p.mouse.left.just_released
    &&& q.player->0.attached is None
    &&& q.shooting is Some
    &&& !p.failed_shot.0
}

/// The state after the button has been let go: nothing of the web is left.
pub open spec fn released(p: ControlsInput, q: WebWorld) -> (ControlsInput, WebWorld) {
    (
        ControlsInput { failed_shot: FailedShot(false), web_connection_entities: Seq::empty(), ..p },
        WebWorld {
            player: Some(Player { attached: None, ..q.player->0 }),
            shooting: None,
            web_parts: Seq::empty(),
            web_shots: Seq::empty(),
            web_connections: Seq::empty(),
        },
    )
}

/// A shape without the hinge that tied the web to it.
pub open spec fn unhinged(shape: ShapeEntity) -> ShapeEntity {
    ShapeEntity { body: Body { joint: None, ..shape.body }, ..shape }
}

/// The shapes with every hinge taken off.
pub open spec fn all_unhinged(shapes: Seq<ShapeEntity>) -> Seq<ShapeEntity> {
    Seq::new(shapes.len(), |i: int| unhinged(shapes[i]))
}

/// The counters after the restart key has been looked at: held for
/// `RESTART_HOLD_FRAMES` frames in a row it asks for a respawn, and the count
/// starts again at the respawn and whenever the key is let go.
pub open spec fn restart_phase(p: ControlsInput) -> ControlsInput {
    let r = p.keyboard.r;
    let due = r.pressed && p.frames_r_key.0 + 1 >= RESTART_HOLD_FRAMES;
    let counted: u32 = if !r.pressed {
        p.frames_r_key.0
    } else if due {
        0
    } else {
        (p.frames_r_key.0 + 1) as u32
    };
    ControlsInput {
        respawn_player: Respawn(p.respawn_player.0 || due),
        frames_r_key: FramesRestartKeyHeld(
            if r.just_released {
                0
            } else {
                counted
            },
        ),
        ..p
    }
}

/// The state after the controls have run for one frame. Without a player
/// nothing happens.
pub open spec fn controls_after(p: ControlsInput, q: WebWorld, shapes: Seq<ShapeEntity>) -> (
    ControlsInput,
    WebWorld,
    Seq<ShapeEntity>,
) {
    if q.player is None {
        (p, q, shapes)
    } else {
        let (p1, q1) = shot_phase(p, q);
        if p.mouse.left.just_released {
            let (p2, q2) = released(p1, q1);
            (restart_phase(p2), q2, all_unhinged(shapes))
        } else {
            (restart_phase(p1), q1, shapes)
        }
    }
}

/// The ray that the frame asks for, if it asks for one.
pub open spec fn controls_cast(p: ControlsInput, q: WebWorld) -> Option<RayCast> {
    if casts_ray(p, q) {
        let after = shot_phase(p, q).1;
        Some(after.shooting->0.spec_ray(hand_of(q.player->0.arm_l.transform)))
    } else {
        None
    }
}

/// Lets the web go: removes the segments, the marks and the bars, takes the
/// hinge off every shape and forgets the hold and the shot.
fn release_web(p: &mut PlayerControlsParam, query: &mut PlayerControlsQueries, level: &mut Level)
    requires
        old(query).player is Some,
    ensures
        (final(p)@, final(query)@) == released(old(p)@, old(query)@),
        final(level).shapes@ == all_unhinged(old(level).shapes@),
{
    p.failed_shot = FailedShot(false);
    query.web_part_entities.clear();
    query.web_shot_entities.clear();
    query.web_connections.clear();
    let mut i: usize = 0;
    while i < level.shapes.len()
        invariant
            0 <= i <= level.shapes@.len(),
            level.shapes@.len() == old(level).shapes@.len(),
            forall|k: int| 0 <= k < i ==> level.shapes@[k] == unhinged(old(level).shapes@[k]),
            forall|k: int| i <= k < level.shapes@.len() ==> level.shapes@[k] == old(level).shapes@[k],
        decreases level.shapes@.len() - i,
    {
        let mut shape = level.shapes[i];
        shape.body.joint = None;
        level.shapes[i] = shape;
        i = i + 1;
    }
    p.web_connection_entities.entities.clear();
    match &mut query.player {
        Some(player) => {
            player.attached = None;
        },
        None => {},
    }
    query.shooting = None;
    assert(level.shapes@ =~= all_unhinged(old(level).shapes@));
    assert(p@ =~= released(old(p)@, old(query)@).0);
    assert(query@ =~= released(old(p)@, old(query)@).1);
}

/// Counts the frames for which the restart key is held.
fn restart_key(p: &mut PlayerControlsParam)
    ensures
        final(p)@ == restart_phase(old(p)@),
{
    if p.keyboard.r.pressed {
        if p.frames_r_key.0 >= RESTART_HOLD_FRAMES - 1 {
            p.respawn_player = Respawn(true);
            p.frames_r_key = FramesRestartKeyHeld(0);
        } else {
            p.frames_r_key = FramesRestartKeyHeld(p.frames_r_key.0 + 1);
        }
    }
    if p.keyboard.r.just_released {
        p.frames_r_key = FramesRestartKeyHeld(0);
    }
    assert(p@ =~= restart_phase(old(p)@));
}

/// The shot's part of a frame.
fn shoot(p: &mut PlayerControlsParam, query: &mut PlayerControlsQueries, player: Player, hand: Vec2)
    requires
        old(query).player == Some(player),
        hand == hand_of(player.arm_l.transform),
    ensures
        (final(p)@, final(query)@) == shot_phase(old(p)@, old(query)@),
{
    if p.mouse.left.just_pressed {
        let ray_norm = p.cursor.world_pos.minus(hand).heading();
        query.shooting = Some(
            ShootingWeb { ray_norm, ray_length: STEP_LENGTH, max_length: MAX_WEB_LENGTH, steps: 0 },
        );
        query.web_shot_entities.push(
            WebShotVisual {
                transform: Transform::from_translation(hand).with_rotation(
                    ray_norm.arc_from_y(),
                ).with_scale(Vec2 { x: INDICATOR_SIZE, y: INDICATOR_SIZE }),
            },
        );
    } else if p.mouse.left.pressed {
        match player.attached {
            Some(attached) => {
                if p.mouse_motion_events.len() > 0 {
                    reel_in(&mut query.web_part_entities, attached, hand, &p.mouse_motion_events);
                }
            },
            None => {
                match query.shooting {
                    Some(shooting) => {
                        if p.failed_shot.0 {
                            let mut shorter = shooting;
                            if shorter.steps > 0 {
                                shorter.steps = shorter.steps - 1;
                            }
                            query.shooting = Some(shorter);
                            shorter.stretch_indicator(hand, &mut query.web_shot_entities);
                        } else if shooting.can_grow() {
                            let goal = p.cursor.world_pos.minus(hand).heading();
                            let mut longer = shooting;
                            longer.steps = longer.steps + 1;
                            longer.ray_norm = steer(shooting.ray_norm, goal);
                            query.shooting = Some(longer);
                        } else {
                            p.failed_shot = FailedShot(true);
                        }
                    },
                    None => {},
                }
            },
        }
    }
    assert(p@ =~= shot_phase(old(p)@, old(query)@).0);
    assert(query@ =~= shot_phase(old(p)@, old(query)@).1);
}

/// Runs the controls for one frame, up to the ray that looks for a surface.
///
/// Returns the ray to cast, if the frame calls for one. The caller casts it and
/// hands what it met to `handle_raycast`, together with the ray's origin.
pub fn player_controls(
    p: &mut PlayerControlsParam,
    query: &mut PlayerControlsQueries,
    level: &mut Level,
) -> (cast: Option<RayCast>)
    ensures
        final(p)@ == controls_after(old(p)@, old(query)@, old(level).shapes@).0,
        final(query)@ == controls_after(old(p)@, old(query)@, old(level).shapes@).1,
        final(level).shapes@ == controls_after(old(p)@, old(query)@, old(level).shapes@).2,
        cast == controls_cast(old(p)@, old(query)@),
        web_wf(old(p)@, old(query)@, old(level).shapes@) && input_fits(old(p)@, old(query)@)
            ==> web_wf(final(p)@, final(query)@, final(level).shapes@),
{
    proof {
        if web_wf(old(p)@, old(query)@, old(level).shapes@) && input_fits(old(p)@, old(query)@) {
            lemma_controls_keep_wf(old(p)@, old(query)@, old(level).shapes@);
        }
    }
    let player = match query.player {
        Some(player) => player,
        None => {
            return None;
        },
    };
    let hand = hand_position(&player.arm_l.transform);
    let wants_ray = !p.mouse.left.just_pressed && p.mouse.left.pressed && !p.mouse.left.just_released
        && player.attached.is_none() && query.shooting.is_some() && !p.failed_shot.0;
    shoot(p, query, player, hand);
    let cast = if wants_ray {
        match query.shooting {
            Some(shooting) => Some(
                RayCast {
                    origin: hand,
                    direction: shooting.ray_norm,
                    max_toi: shooting.reach(),
                    solid: true,
                    groups: CollisionGroups::new(GROUP_ALL, GROUP_LEVEL),
                },
            ),
            None => None,
        }
    } else {
        None
    };
    if p.mouse.left.just_released {
        release_web(p, query, level);
    }
    restart_key(p);
    cast
}

/// A product with a number that lies at most `r` below `z` lies within `|x| * r`
/// of the product with `z`.
proof fn lemma_product_near(x: int, y: int, z: int, r: int, size: int)
    requires
        z - r < y <= z,
        r >= 0,
        size == x || size == -x,
        size >= 0,
    ensures
        x * z - size * r <= x * y <= x * z + size * r,
{
    assert(x * z - size * r <= x * y <= x * z + size * r) by (nonlinear_arith)
        requires
            z - r < y <= z,
            r >= 0,
            size == x || size == -x,
            size >= 0,
    ;
}

/// A quotient by one million, rounded down, times one million lies at most one
/// million below the dividend.
proof fn lemma_millionth(a: int)
    ensures
        a - DIRECTION_ONE < DIRECTION_ONE * (a / (DIRECTION_ONE as int)) <= a,
{
}

/// Steering turns the shot by no more than two degrees in a frame: the new
/// direction reaches at least the cosine of two degrees along the old one, but
/// for what the rounding of the components takes away. This holds of every old
/// direction that is a unit vector to within three millionths, as every
/// heading is.
pub proof fn lemma_steering_is_clamped(from: Direction, goal: Direction)
    requires
        from.is_unit(),
        (DIRECTION_ONE - 3) * (DIRECTION_ONE - 3) <= from.x * from.x + from.y * from.y,
    ensures
        from.spec_dot(Vec2 { x: steered(from, goal).x, y: steered(from, goal).y }) >= MAX_TURN_COS - 11,
        !turn_exceeds(from, goal) ==> steered(from, goal) == goal,
{
    if turn_exceeds(from, goal) {
        let one = DIRECTION_ONE as int;
        let c = MAX_TURN_COS as int;
        let turn = turn_towards(from, goal);
        let s = turn.y as int;
        let fx = from.x as int;
        let fy = from.y as int;
        let ax: int = if fx < 0 { -fx } else { fx };
        let ay: int = if fy < 0 { -fy } else { fy };
        // The four products of the turn.
        let a = fx * c / one;
        let b = fy * s / one;
        let p = fx * s / one;
        let q = fy * c / one;
        lemma_millionth(fx * c);
        lemma_millionth(fy * s);
        lemma_millionth(fx * s);
        lemma_millionth(fy * c);
        assert(-one * one <= fx * c <= one * one && -one * one <= fy * c <= one * one) by (nonlinear_arith)
            requires
                -one <= fx <= one,
                -one <= fy <= one,
                0 <= c <= one,
        ;
        assert(-one * one <= fx * s <= one * one && -one * one <= fy * s <= one * one) by (nonlinear_arith)
            requires
                -one <= fx <= one,
                -one <= fy <= one,
                -one <= s <= one,
        ;
        assert(-one <= a <= one && -one <= b <= one && -one <= p <= one && -one <= q <= one);
        let to = steered(from, goal);
        assert(to.x == a - b && to.y == p + q);
        let tx = to.x as int;
        let ty = to.y as int;
        // The two products of the measure.
        let d1 = fx * tx / one;
        let d2 = fy * ty / one;
        lemma_millionth(fx * tx);
        lemma_millionth(fy * ty);
        assert(-2 * (one * one) <= fx * tx <= 2 * (one * one) && -2 * (one * one) <= fy * ty <= 2 * (one
            * one)) by (nonlinear_arith)
            requires
                -one <= fx <= one,
                -one <= fy <= one,
                -2 * one <= tx <= 2 * one,
                -2 * one <= ty <= 2 * one,
                one > 0,
        ;
        assert(-2 * one - 1 <= d1 <= 2 * one && -2 * one - 1 <= d2 <= 2 * one);
        assert(from.spec_dot(Vec2 { x: to.x, y: to.y }) == d1 + d2);
        // Each product, against what it would be without rounding.
        lemma_product_near(fx, one * a, fx * c, one, ax);
        lemma_product_near(fx, one * b, fy * s, one, ax);
        lemma_product_near(fy, one * p, fx * s, one, ay);
        lemma_product_near(fy, one * q, fy * c, one, ay);
        let xxc = fx * (fx * c);
        let xys = fx * (fy * s);
        let yxs = fy * (fx * s);
        let yyc = fy * (fy * c);
        assert(xys == yxs) by (nonlinear_arith)
            requires
                xys == fx * (fy * s),
                yxs == fy * (fx * s),
        ;
        let norm = fx * fx + fy * fy;
        assert(xxc + yyc == c * norm) by (nonlinear_arith)
            requires
                xxc == fx * (fx * c),
                yyc == fy * (fy * c),
                norm == fx * fx + fy * fy,
        ;
        let xa = fx * (one * a);
        let xb = fx * (one * b);
        let yp = fy * (one * p);
        let yq = fy * (one * q);
        let rx = ax * one;
        let ry = ay * one;
        assert(one * (fx * tx) == xa - xb) by (nonlinear_arith)
            requires
                tx == a - b,
                xa == fx * (one * a),
                xb == fx * (one * b),
        ;
        assert(one * (fy * ty) == yp + yq) by (nonlinear_arith)
            requires
                ty == p + q,
                yp == fy * (one * p),
                yq == fy * (one * q),
        ;
        assert(rx <= one * one && ry <= one * one) by (nonlinear_arith)
            requires
                rx == ax * one,
                ry == ay * one,
                0 <= ax <= one,
                0 <= ay <= one,
        ;
        let whole = one * (fx * tx) + one * (fy * ty);
        assert(whole >= c * norm - 4 * (one * one));
        assert(c * norm >= c * (one * one) - 6 * (one * one)) by (nonlinear_arith)
            requires
                norm >= (one - 3) * (one - 3),
                0 <= c <= one,
                one == 1_000_000,
        ;
        let sum = d1 + d2;
        assert(one * (one * sum) > whole - 2 * (one * one)) by (nonlinear_arith)
            requires
                sum == d1 + d2,
                whole == one * (fx * tx) + one * (fy * ty),
                fx * tx - one < one * d1,
                fy * ty - one < one * d2,
                one > 0,
        ;
        assert(sum > c - 12) by (nonlinear_arith)
            requires
                one * (one * sum) > c * (one * one) - 12 * (one * one),
                one == 1_000_000,
        ;
    }
}

/// A component brought to a new length is at least as large as the exact
/// quotient, or as large as any length can be.
proof fn lemma_stretched_part(c: i64, target: i64, len: i64)
    requires
        target >= 0,
        len > 0,
    ensures
        ({
            let r = stretched_part(c, target, len);
            r * r * (len * len) >= (c * c) * (target * target) || r * r >= target * target
        }),
{
    let size: int = if c < 0 { -c } else { c as int };
    let product = size * target;
    assert(product >= 0) by (nonlinear_arith)
        requires
            product == size * target,
            size >= 0,
            target >= 0,
    ;
    assert(-c * target == (-c) * target);
    let q = ceil_div(product, len as int);
    lemma_ceil_div_least(product, len as int, q);
    let r = stretched_part(c, target, len);
    if q > i64::MAX {
        // The result is pinned to an end of the range, which no length exceeds.
        assert(r >= i64::MAX || r <= -i64::MAX);
        assert(r * r >= target * target) by (nonlinear_arith)
            requires
                r >= 0x7fff_ffff_ffff_ffff || r <= -0x7fff_ffff_ffff_ffff,
                0 <= target <= 0x7fff_ffff_ffff_ffff,
        ;
    } else {
        assert(r == q || r == -q);
        assert(q * len >= product);
        lemma_square_monotone(product, q * len);
        assert(r * r * (len * len) == (q * len) * (q * len)) by (nonlinear_arith)
            requires
                r == q || r == -q,
        ;
        assert((c * c) * (target * target) == product * product) by (nonlinear_arith)
            requires
                product == size * target,
                size == c || size == -c,
        ;
    }
}

/// A vector brought to the length `target` is no shorter than `target`.
pub proof fn lemma_resized_reaches(anchor: Vec2, len: i64, target: i64)
    requires
        target >= 0,
        len >= 0,
        len * len <= anchor.spec_norm_sq(),
    ensures
        resized(anchor, len, target).spec_norm_sq() >= target * target,
{
    let r = resized(anchor, len, target);
    if len > 0 {
        lemma_stretched_part(anchor.x, target, len);
        lemma_stretched_part(anchor.y, target, len);
        let xx = r.x * r.x;
        let yy = r.y * r.y;
        let tt = target * target;
        let ll = len * len;
        let ax = anchor.x * anchor.x;
        let ay = anchor.y * anchor.y;
        assert(xx >= 0 && yy >= 0 && tt >= 0 && ll > 0 && ax >= 0 && ay >= 0) by (nonlinear_arith)
            requires
                xx == r.x * r.x,
                yy == r.y * r.y,
                tt == target * target,
                ll == len * len,
                ax == anchor.x * anchor.x,
                ay == anchor.y * anchor.y,
                len > 0,
        ;
        if xx >= tt || yy >= tt {
        } else {
            assert(xx * ll >= ax * tt);
            assert(yy * ll >= ay * tt);
            assert(xx + yy >= tt) by (nonlinear_arith)
                requires
                    xx * ll >= ax * tt,
                    yy * ll >= ay * tt,
                    ax + ay >= ll,
                    ll > 0,
                    tt >= 0,
                    xx >= 0,
                    yy >= 0,
                    ax >= 0,
                    ay >= 0,
            ;
        }
    } else {
        assert(r.spec_norm_sq() == target * target + 0 * 0);
    }
}

/// The length of a vector, rounded down, is no more than the vector is long.
pub proof fn lemma_length_within(v: Vec2)
    ensures
        0 <= v.spec_length(),
        v.spec_length() * v.spec_length() <= v.spec_norm_sq(),
{
    let n = v.spec_norm_sq();
    assert(n >= 0) by (nonlinear_arith)
        requires
            n == v.x * v.x + v.y * v.y,
    ;
    lemma_floor_sqrt_exists(n);
    let root = crate::math::floor_sqrt(n);
    let len = v.spec_length();
    assert(0 <= len <= root);
    lemma_square_monotone(len as int, root);
}

/// Reeling the web in leaves no hinge shorter than the least length asked for.
pub proof fn lemma_retracted_reaches(anchor: Vec2, shrink: i64, min_joint: i64)
    requires
        min_joint >= 0,
    ensures
        retracted(anchor, shrink, min_joint).spec_norm_sq() >= min_joint * min_joint,
{
    let len = anchor.spec_length();
    let wanted = saturated(len - shrink);
    let target = if wanted < min_joint { min_joint } else { wanted };
    lemma_length_within(anchor);
    lemma_resized_reaches(anchor, len, target);
    lemma_square_monotone(min_joint as int, target as int);
}

/// However the mouse moves while the web holds, no hinge of the web gets
/// shorter than the web's minimum length divided by the number of its
/// segments: with `n` segments and an anchor `a`, `n * |a| >= min_length`.
pub proof fn lemma_reeling_keeps_minimum(
    parts: Seq<WebPart>,
    attached: Attached,
    hand: Vec2,
    events: Seq<Vec2>,
    i: int,
)
    requires
        attached.num_segments > 0,
        0 <= i < parts.len(),
    ensures
        reeled(parts, attached, hand, events).len() == parts.len(),
        attached.min_length <= 0 || (attached.num_segments * attached.num_segments) * reeled(
            parts,
            attached,
            hand,
            events,
        )[i].joint.data.local_anchor2.spec_norm_sq() >= attached.min_length * attached.min_length,
        reeled(parts, attached, hand, events)[i].joint.data.local_anchor2.spec_norm_sq()
            >= attached.min_joint_length() * attached.min_joint_length(),
        reeled(parts, attached, hand, events)[i].joint.parent == parts[i].joint.parent,
        reeled(parts, attached, hand, events)[i].translation == parts[i].translation,
{
    let n = attached.num_segments as int;
    let floor: int = if attached.min_length < 0 { 0 } else { attached.min_length as int };
    let least = ceil_div(floor, n);
    lemma_ceil_div_least(floor, n, least);
    assert(0 <= least <= floor) by (nonlinear_arith)
        requires
            least == (floor + n - 1) / n,
            n >= 1,
            floor >= 0,
    ;
    let min_joint = attached.min_joint_length();
    assert(min_joint == least);
    let a = reeled(parts, attached, hand, events)[i].joint.data.local_anchor2;
    assert(a == retracted(
        parts[i].joint.data.local_anchor2,
        attached.shrink(hand, events),
        min_joint,
    ));
    lemma_retracted_reaches(parts[i].joint.data.local_anchor2, attached.shrink(hand, events), min_joint);
    let len_sq = a.spec_norm_sq();
    if attached.min_length > 0 {
        lemma_square_monotone(attached.min_length as int, least * n);
        assert((n * n) * len_sq >= (least * n) * (least * n)) by (nonlinear_arith)
            requires
                len_sq >= least * least,
                n >= 1,
        ;
    }
}

/// Letting the button go leaves nothing of the web, whatever state the shot
/// was in: no segment, no mark, no bar, no hold, no hinge on any shape, and no
/// ray is asked for.
pub proof fn lemma_release_clears(p: ControlsInput, q: WebWorld, shapes: Seq<ShapeEntity>)
    requires
        q.player is Some,
        p.mouse.left.just_released,
    ensures
        ({
            let (p2, q2, shapes2) = controls_after(p, q, shapes);
            &&& q2.web_parts.len() == 0
            &&& q2.web_shots.len() == 0
            &&& q2.web_connections.len() == 0
            &&& p2.web_connection_entities.len() == 0
            &&& q2.player is Some
            &&& q2.player->0.attached is None
            &&& q2.shooting is None
            &&& !p2.failed_shot.0
            &&& shapes2.len() == shapes.len()
            &&& forall|i: int| 0 <= i < shapes2.len() ==> (#[trigger] shapes2[i]).body.joint is None
        }),
        controls_cast(p, q) is None,
{
}

} // verus!
