//! The game: the level, the player and the web.

use vstd::prelude::*;

pub mod level;
pub mod player;

use crate::editor::components::ShapeEntity;
use crate::game::level::Level;
use crate::game::player::camera::{camera_followed, player_camera};
use crate::game::player::components::{FailedShot, FramesRestartKeyHeld, RespawnMessage};
use crate::game::player::controls::controls::{
    controls_after, controls_cast, player_controls, ControlsInput, PlayerControlsParam,
    PlayerControlsQueries, WebPartEntities, WebWorld,
};
use crate::game::player::controls::phase::{
    input_fits, lemma_bars_keep_wf, lemma_controls_keep_wf, lemma_controls_transitions,
    lemma_raycast_keeps_wf, phase_of, web_wf, WebPhase,
};
use crate::game::player::spawn::lemma_respawn_is_total;
use crate::game::player::controls::raycast::{handle_raycast, raycast_after};
use crate::game::player::controls::web_connections::{bars_after, update_web_connections};
use crate::game::player::respawn_message::{message_after, respawn_message, spawn_message};
use crate::game::player::spawn::{player_spawn, respawn_after, Respawn};
use crate::geometry::Transform;
use crate::input::{KeyboardInput, MouseInput};
use crate::physics::{RayCast, RayIntersection};
use crate::util::Cursor;

verus! {

/// The game as it is before its first frame.
pub struct GamePlugin;

/// The state after the first half of a frame of the game: after a respawn, if
/// one was asked for, and after the controls.
pub open spec fn frame_begun(p: ControlsInput, q: WebWorld, shapes: Seq<ShapeEntity>) -> (
    ControlsInput,
    WebWorld,
    Seq<ShapeEntity>,
) {
    let (p1, q1, shapes1) = respawn_after(p, q, shapes);
    controls_after(p1, q1, shapes1)
}

/// The ray that the first half of a frame asks for, if it asks for one.
pub open spec fn frame_cast(p: ControlsInput, q: WebWorld, shapes: Seq<ShapeEntity>) -> Option<RayCast> {
    let (p1, q1, shapes1) = respawn_after(p, q, shapes);
    controls_cast(p1, q1)
}

/// The state after the ray of the frame has been dealt with, if there was one.
pub open spec fn frame_met(
    p: ControlsInput,
    q: WebWorld,
    shapes: Seq<ShapeEntity>,
    cast: Option<(RayCast, Option<(usize, RayIntersection)>)>,
) -> (ControlsInput, WebWorld, Seq<ShapeEntity>) {
    match cast {
        Some((ray, met)) => raycast_after(p, q, shapes, met, ray.origin),
        None => (p, q, shapes),
    }
}

/// The state after the second half of a frame of the game: after the ray has
/// been dealt with, the speed of the torso has been looked at, and the bars of
/// the web have been brought up to date.
pub open spec fn frame_finished(
    p: ControlsInput,
    q: WebWorld,
    shapes: Seq<ShapeEntity>,
    message: RespawnMessage,
    cast: Option<(RayCast, Option<(usize, RayIntersection)>)>,
) -> (ControlsInput, WebWorld, Seq<ShapeEntity>, RespawnMessage) {
    let (p1, q1, shapes1) = frame_met(p, q, shapes, cast);
    let (message1, respawn1) = message_after(message, q1.player, p1.respawn_player);
    (
        ControlsInput { respawn_player: respawn1, ..p1 },
        WebWorld {
            web_connections: bars_after(
                p1.web_connection_entities,
                q1.player,
                q1.web_parts,
                q1.web_connections,
            ),
            ..q1
        },
        shapes1,
        message1,
    )
}

impl GamePlugin {
    /// The state with which the game begins: nothing in the world yet, no key
    /// touched, and a respawn asked for, so that the first frame builds the
    /// player.
    pub fn build(&self) -> (state: (PlayerControlsParam, PlayerControlsQueries, RespawnMessage))
        ensures
            state.0.respawn_player.0,
            !state.0.failed_shot.0,
            state.0.frames_r_key.0 == 0,
            state.0.web_connection_entities.entities@.len() == 0,
            state.0.mouse_motion_events@.len() == 0,
            state.0.cursor == Cursor::spec_new(),
            state.0.mouse == MouseInput::spec_idle(),
            state.0.keyboard == KeyboardInput::spec_idle(),
            state.1.player is None,
            state.1.shooting is None,
            state.1.web_part_entities@.len() == 0,
            state.1.web_shot_entities@.len() == 0,
            state.1.web_connections@.len() == 0,
            !state.2.is_visible,
            web_wf(state.0@, state.1@, Seq::empty()),
    {
        let param = PlayerControlsParam {
            cursor: Cursor::default(),
            mouse: MouseInput::idle(),
            keyboard: KeyboardInput::idle(),
            frames_r_key: FramesRestartKeyHeld(0),
            failed_shot: FailedShot(false),
            web_connection_entities: WebPartEntities { entities: Vec::new() },
            mouse_motion_events: Vec::new(),
            respawn_player: Respawn(true),
        };
        let query = PlayerControlsQueries {
            player: None,
            shooting: None,
            web_part_entities: Vec::new(),
            web_shot_entities: Vec::new(),
            web_connections: Vec::new(),
        };
        (param, query, spawn_message())
    }

    /// Runs the first half of a frame of the game: builds the player anew if
    /// that was asked for, then runs the controls. Returns the ray to cast, if
    /// the frame calls for one.
    pub fn update(
        &self,
        p: &mut PlayerControlsParam,
        query: &mut PlayerControlsQueries,
        level: &mut Level,
    ) -> (cast: Option<RayCast>)
        ensures
            final(p)@ == frame_begun(old(p)@, old(query)@, old(level).shapes@).0,
            final(query)@ == frame_begun(old(p)@, old(query)@, old(level).shapes@).1,
            final(level).shapes@ == frame_begun(old(p)@, old(query)@, old(level).shapes@).2,
            cast == frame_cast(old(p)@, old(query)@, old(level).shapes@),
    {
        player_spawn(p, query, level);
        player_controls(p, query, level)
    }

    /// Runs the second half of a frame of the game. `cast` holds the ray that
    /// the first half asked for and what it met, or `None` where no ray was
    /// asked for. Then the speed of the torso is looked at, the camera follows
    /// the player, and the bars between the segments are brought up to date.
    pub fn finish(
        &self,
        p: &mut PlayerControlsParam,
        query: &mut PlayerControlsQueries,
        level: &mut Level,
        message: &mut RespawnMessage,
        camera: &mut Transform,
        cast: Option<(RayCast, Option<(usize, RayIntersection)>)>,
    )
        requires
            cast matches Some((_, Some(hit))) ==> hit.0 < old(level).shapes@.len(),
        ensures
            final(p)@ == frame_finished(
                old(p)@,
                old(query)@,
                old(level).shapes@,
                *old(message),
                cast,
            ).0,
            final(query)@ == frame_finished(
                old(p)@,
                old(query)@,
                old(level).shapes@,
                *old(message),
                cast,
            ).1,
            final(level).shapes@ == frame_finished(
                old(p)@,
                old(query)@,
                old(level).shapes@,
                *old(message),
                cast,
            ).2,
            *final(message) == frame_finished(
                old(p)@,
                old(query)@,
                old(level).shapes@,
                *old(message),
                cast,
            ).3,
            *final(camera) == camera_followed(
                *old(camera),
                frame_met(old(p)@, old(query)@, old(level).shapes@, cast).1.player,
                old(p).cursor,
            ),
    {
        match cast {
            Some((ray, met)) => {
                handle_raycast(p, query, level, met, ray.origin);
            },
            None => {},
        }
        respawn_message(message, &query.player, &mut p.respawn_player);
        player_camera(camera, &query.player, &p.cursor);
        update_web_connections(&p.web_connection_entities, query);
        proof {
            let after = frame_finished(old(p)@, old(query)@, old(level).shapes@, *old(message), cast);
            assert(p@ =~= after.0);
            assert(query@ =~= after.1);
        }
    }
}

/// The ray of a frame together with what it met, where the frame cast one.
pub open spec fn frame_ray(
    p: ControlsInput,
    q: WebWorld,
    shapes: Seq<ShapeEntity>,
    met: Option<(usize, RayIntersection)>,
) -> Option<(RayCast, Option<(usize, RayIntersection)>)> {
    match frame_cast(p, q, shapes) {
        Some(ray) => Some((ray, met)),
        None => None,
    }
}

/// The controls keep the world well formed, and they ask for a ray only while
/// a shot is under way.
proof fn lemma_begin_keeps_wf(p: ControlsInput, q: WebWorld, shapes: Seq<ShapeEntity>)
    requires
        web_wf(p, q, shapes),
        input_fits(p, q),
    ensures
        ({
            let (p1, q1, shapes1) = controls_after(p, q, shapes);
            &&& web_wf(p1, q1, shapes1)
            &&& shapes1.len() == shapes.len()
            &&& controls_cast(p, q) is Some ==> phase_of(p1, q1) == WebPhase::Shooting || phase_of(
                p1,
                q1,
            ) == WebPhase::Failed
        }),
{
    lemma_controls_keep_wf(p, q, shapes);
    if controls_cast(p, q) is Some {
        lemma_controls_transitions(p, q, shapes);
    }
}

/// The second half of a frame keeps the world well formed, where a ray was
/// cast only while a shot was under way.
proof fn lemma_finish_keeps_wf(
    p: ControlsInput,
    q: WebWorld,
    shapes: Seq<ShapeEntity>,
    message: RespawnMessage,
    cast: Option<(RayCast, Option<(usize, RayIntersection)>)>,
)
    requires
        web_wf(p, q, shapes),
        cast is Some ==> phase_of(p, q) == WebPhase::Shooting || phase_of(p, q) == WebPhase::Failed,
        cast matches Some((_, Some(hit))) ==> hit.0 < shapes.len(),
    ensures
        ({
            let (p2, q2, shapes2, message2) = frame_finished(p, q, shapes, message, cast);
            &&& web_wf(p2, q2, shapes2)
            &&& shapes2.len() == shapes.len()
        }),
{
    match cast {
        Some((ray, met)) => {
            lemma_raycast_keeps_wf(p, q, shapes, met, ray.origin);
        },
        None => {},
    }
    let (p1, q1, shapes1) = frame_met(p, q, shapes, cast);
    let (message2, respawn2) = message_after(message, q1.player, p1.respawn_player);
    let p2 = ControlsInput { respawn_player: respawn2, ..p1 };
    assert(web_wf(p2, q1, shapes1));
    lemma_bars_keep_wf(p2, q1, shapes1);
}

/// A whole frame of the game keeps the world well formed, whatever the input
/// of the frame and whatever the ray meets, as long as the button goes down
/// only while the web is idle.
pub proof fn lemma_frame_keeps_wf(
    p: ControlsInput,
    q: WebWorld,
    shapes: Seq<ShapeEntity>,
    message: RespawnMessage,
    met: Option<(usize, RayIntersection)>,
)
    requires
        web_wf(p, q, shapes),
        input_fits(respawn_after(p, q, shapes).0, respawn_after(p, q, shapes).1),
        met matches Some(hit) ==> hit.0 < shapes.len(),
    ensures
        ({
            let (p1, q1, shapes1) = frame_begun(p, q, shapes);
            let (p2, q2, shapes2, message2) = frame_finished(
                p1,
                q1,
                shapes1,
                message,
                frame_ray(p, q, shapes, met),
            );
            &&& web_wf(p1, q1, shapes1)
            &&& web_wf(p2, q2, shapes2)
            &&& shapes2.len() == shapes.len()
        }),
{
    let (p0, q0, shapes0) = respawn_after(p, q, shapes);
    assert(web_wf(p0, q0, shapes0) && shapes0.len() == shapes.len()) by {
        if p.respawn_player.0 {
            lemma_respawn_is_total(p, q, shapes);
        }
    }
    lemma_begin_keeps_wf(p0, q0, shapes0);
    let (p1, q1, shapes1) = controls_after(p0, q0, shapes0);
    lemma_finish_keeps_wf(p1, q1, shapes1, message, frame_ray(p, q, shapes, met));
}

} // verus!
