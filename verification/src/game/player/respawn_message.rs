//! The prompt that appears when the player is falling too fast to recover.

use vstd::prelude::*;
use crate::game::player::components::{Player, RespawnMessage};
use crate::game::player::spawn::Respawn;
use crate::geometry::Vec2;

verus! {

/// The speed, in units per second, from which on the player counts as lost.
pub const MESSAGE_VELOCITY: i64 = 4_000_000;

/// Whether a body that moves at `velocity` is at least as fast as `MESSAGE_VELOCITY`.
pub open spec fn spec_too_fast(velocity: Vec2) -> bool {
    velocity.spec_norm_sq() >= MESSAGE_VELOCITY * MESSAGE_VELOCITY
}

/// Whether a body that moves at `velocity` counts as lost.
#[verifier::when_used_as_spec(spec_too_fast)]
pub fn too_fast(velocity: Vec2) -> (r: bool)
    ensures
        r == spec_too_fast(velocity),
{
    velocity.norm_sq() >= 16_000_000_000_000u128
}

/// The prompt and the wish for a respawn after the speed of the torso has been
/// looked at. From `MESSAGE_VELOCITY` on the prompt is shown and a respawn is
/// asked for; below it the prompt is hidden. Without a player nothing changes.
pub open spec fn message_after(message: RespawnMessage, player: Option<Player>, respawn: Respawn) -> (
    RespawnMessage,
    Respawn,
) {
    match player {
        Some(pl) => (
            RespawnMessage { is_visible: spec_too_fast(pl.body.velocity) },
            Respawn(respawn.0 || spec_too_fast(pl.body.velocity)),
        ),
        None => (message, respawn),
    }
}

/// Looks at the speed of the torso, shows or hides the prompt, and asks for a
/// respawn where the player is lost.
pub fn respawn_message(message: &mut RespawnMessage, player: &Option<Player>, respawn: &mut Respawn)
    ensures
        (*final(message), *final(respawn)) == message_after(*old(message), *player, *old(respawn)),
{
    match player {
        Some(pl) => {
            if too_fast(pl.body.velocity) {
                message.is_visible = true;
                *respawn = Respawn(true);
            } else {
                message.is_visible = false;
            }
        },
        None => {},
    }
}

/// The prompt as it is at startup: hidden.
pub fn spawn_message() -> (message: RespawnMessage)
    ensures
        !message.is_visible,
{
    RespawnMessage { is_visible: false }
}

} // verus!
