//! The camera that follows the player.

use vstd::prelude::*;
use crate::game::player::components::Player;
use crate::geometry::{Transform, Vec2};
use crate::util::Cursor;

verus! {

/// How far the camera leans towards the pointer, in thousandths of the
/// pointer's distance from the middle of the window.
pub const CAMERA_LEAN: i64 = 150;

/// Which part of the way to its goal the camera goes in one frame, in thousandths.
pub const CAMERA_EASE: i64 = 500;

/// Where the camera wants to be: at the torso, leaning towards the pointer.
pub open spec fn camera_goal(body: Vec2, cursor: Cursor) -> Vec2 {
    body.spec_plus(cursor.pos.spec_scaled(CAMERA_LEAN, 1000))
}

/// The camera's place after one frame: half way from where it was to its goal.
pub open spec fn camera_eased(from: Vec2, goal: Vec2) -> Vec2 {
    from.spec_plus(goal.spec_minus(from).spec_scaled(CAMERA_EASE, 1000))
}

/// The camera after the frame: half way to its goal, or where it was while
/// there is no player.
pub open spec fn camera_followed(camera: Transform, player: Option<Player>, cursor: Cursor) -> Transform {
    match player {
        Some(pl) => Transform {
            translation: camera_eased(
                camera.translation,
                camera_goal(pl.body.transform.translation, cursor),
            ),
            ..camera
        },
        None => camera,
    }
}

/// Moves the camera half way to its goal. Without a player it stays.
pub fn player_camera(camera: &mut Transform, player: &Option<Player>, cursor: &Cursor)
    ensures
        *final(camera) == camera_followed(*old(camera), *player, *cursor),
{
    match player {
        Some(pl) => {
            let body_pos = pl.body.transform.translation;
            let goal_pos = body_pos.plus(cursor.pos.scaled(CAMERA_LEAN, 1000));
            camera.translation = camera.translation.plus(
                goal_pos.minus(camera.translation).scaled(CAMERA_EASE, 1000),
            );
        },
        None => {},
    }
}

} // verus!
