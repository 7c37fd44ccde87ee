//! The four states of the web, and what holds of the world in each of them.
//!
//! The web is idle until the button is pressed. A press begins a shot, which
//! either takes hold of a surface or fails, and letting the button go brings the
//! web back to idle from wherever it was.

use vstd::prelude::*;
use crate::editor::components::ShapeEntity;
use crate::game::player::controls::controls::{
    controls_after, controls_cast, ControlsInput, PlayerControlsParam, PlayerControlsQueries,
    WebWorld,
};
use crate::game::player::controls::raycast::{chain_parent, raycast_after, spawned_count};
use crate::game::player::controls::web_connections::bars_after;
use crate::physics::{Entity, RayIntersection};
use crate::geometry::Vec2;

verus! {

/// The state of the web.
#[derive(Clone, Copy, PartialEq, Eq, Debug, Structural)]
pub enum WebPhase {
    /// No shot is under way.
    Idle,
    /// A shot is looking for a surface.
    Shooting,
    /// A shot has failed and is being drawn back.
    Failed,
    /// The web holds on to a surface.
    Attached,
}

/// The state that the web is in.
pub open spec fn phase_of(p: ControlsInput, q: WebWorld) -> WebPhase {
    if q.player is Some && q.player->0.attached is Some {
        WebPhase::Attached
    } else if q.shooting is Some {
        if p.failed_shot.0 {
            WebPhase::Failed
        } else {
            WebPhase::Shooting
        }
    } else {
        WebPhase::Idle
    }
}

/// The state that the web is in.
pub fn phase(p: &PlayerControlsParam, query: &PlayerControlsQueries) -> (r: WebPhase)
    ensures
        r == phase_of(p@, query@),
{
    let attached = match query.player {
        Some(player) => player.attached.is_some(),
        None => false,
    };
    if attached {
        WebPhase::Attached
    } else if query.shooting.is_some() {
        if p.failed_shot.0 {
            WebPhase::Failed
        } else {
            WebPhase::Shooting
        }
    } else {
        WebPhase::Idle
    }
}

/// Whether no shape has the web tied to it.
pub open spec fn no_hinge(shapes: Seq<ShapeEntity>) -> bool {
    forall|i: int| 0 <= i < shapes.len() ==> (#[trigger] shapes[i]).body.joint is None
}

/// Whether the segments form one chain from the left arm outwards, and the
/// list of their names is in step with them.
pub open spec fn is_chain(p: ControlsInput, q: WebWorld) -> bool {
    &&& p.web_connection_entities.len() == q.web_parts.len()
    &&& forall|k: int|
        0 <= k < q.web_parts.len() ==> (#[trigger] q.web_parts[k]).joint.parent == chain_parent(0, k)
    &&& forall|k: int|
        0 <= k < q.web_parts.len() ==> #[trigger] p.web_connection_entities[k] == Entity::WebPart(
            k as usize,
        )
}

/// Whether exactly the shape at place `hit` has the web tied to it, by a hinge
/// to the last segment of the chain.
pub open spec fn hinged_at(q: WebWorld, shapes: Seq<ShapeEntity>, hit: int) -> bool {
    &&& 0 <= hit < shapes.len()
    &&& shapes[hit].body.joint is Some
    &&& shapes[hit].body.joint->0.parent == chain_parent(0, q.web_parts.len() as int)
    &&& forall|i: int| 0 <= i < shapes.len() && i != hit ==> (#[trigger] shapes[i]).body.joint is None
}

/// What holds of the world in each state of the web.
///
/// Idle: there is no shot, no mark, no segment, no bar and no hinge on any
/// shape, and no shot counts as failed. Shooting and failed: there is exactly
/// one mark and nothing else of the web. Attached: the shot is still there and
/// has not failed, there is no mark, the segments are one less than the hold
/// counts and form one chain, and one shape has the chain's end tied to it.
/// Without a player the web is idle.
pub open spec fn web_wf(p: ControlsInput, q: WebWorld, shapes: Seq<ShapeEntity>) -> bool {
    match phase_of(p, q) {
        WebPhase::Idle => {
            &&& !p.failed_shot.0
            &&& p.web_connection_entities.len() == 0
            &&& q.web_parts.len() == 0
            &&& q.web_shots.len() == 0
            &&& q.web_connections.len() == 0
            &&& no_hinge(shapes)
        },
        WebPhase::Shooting | WebPhase::Failed => {
            &&& q.player is Some
            &&& p.web_connection_entities.len() == 0
            &&& q.web_parts.len() == 0
            &&& q.web_shots.len() == 1
            &&& q.web_connections.len() == 0
            &&& no_hinge(shapes)
        },
        WebPhase::Attached => {
            &&& q.shooting is Some
            &&& !p.failed_shot.0
            &&& q.web_shots.len() == 0
            &&& q.web_parts.len() == spawned_count(q.player->0.attached->0.num_segments)
            &&& is_chain(p, q)
            &&& exists|hit: int| hinged_at(q, shapes, hit)
        },
    }
}

/// Whether the input can follow on the state: the button goes down only while
/// the web is idle.
pub open spec fn input_fits(p: ControlsInput, q: WebWorld) -> bool {
    p.mouse.left.just_pressed ==> phase_of(p, q) == WebPhase::Idle
}

/// The controls keep the world well formed.
pub proof fn lemma_controls_keep_wf(p: ControlsInput, q: WebWorld, shapes: Seq<ShapeEntity>)
    requires
        web_wf(p, q, shapes),
        input_fits(p, q),
    ensures
        ({
            let (p2, q2, shapes2) = controls_after(p, q, shapes);
            web_wf(p2, q2, shapes2)
        }),
{
    let (p2, q2, shapes2) = controls_after(p, q, shapes);
    if q.player is Some && !p.mouse.left.just_released {
        if phase_of(p, q) == WebPhase::Attached {
            let hit = choose|hit: int| hinged_at(q, shapes, hit);
            assert(hinged_at(q2, shapes2, hit));
        }
    }
}

/// The controls move the web from state to state as follows. A press on an
/// idle web begins a shot. Letting go makes any web idle. Else an idle web
/// stays idle and a web that holds keeps its hold; a failed shot stays failed;
/// and a shot goes on or, where it cannot grow, fails.
pub proof fn lemma_controls_transitions(p: ControlsInput, q: WebWorld, shapes: Seq<ShapeEntity>)
    requires
        q.player is Some,
        web_wf(p, q, shapes),
        input_fits(p, q),
    ensures
        ({
            let (p2, q2, shapes2) = controls_after(p, q, shapes);
            let before = phase_of(p, q);
            let after = phase_of(p2, q2);
            &&& p.mouse.left.just_released ==> after == WebPhase::Idle
            &&& !p.mouse.left.just_released && p.mouse.left.just_pressed ==> after == WebPhase::Shooting
                && q2.shooting->0.steps == 0
            &&& !p.mouse.left.just_released && !p.mouse.left.just_pressed ==> {
                &&& before == WebPhase::Idle ==> after == WebPhase::Idle
                &&& before == WebPhase::Attached ==> after == WebPhase::Attached
                &&& before == WebPhase::Failed ==> after == WebPhase::Failed
                &&& before == WebPhase::Shooting ==> after == WebPhase::Shooting || after
                    == WebPhase::Failed
                &&& before == WebPhase::Shooting && p.mouse.left.pressed ==> (after == WebPhase::Failed
                    <==> !q.shooting->0.spec_can_grow())
            }
            &&& controls_cast(p, q) is Some ==> before == WebPhase::Shooting
        }),
{
}

/// Dealing with the ray keeps the world well formed, where a ray was asked for:
/// a shot is under way and the web holds on to nothing yet.
pub proof fn lemma_raycast_keeps_wf(
    p: ControlsInput,
    q: WebWorld,
    shapes: Seq<ShapeEntity>,
    raycast: Option<(usize, RayIntersection)>,
    hand: Vec2,
)
    requires
        web_wf(p, q, shapes),
        phase_of(p, q) == WebPhase::Shooting || phase_of(p, q) == WebPhase::Failed,
        raycast matches Some(hit) ==> hit.0 < shapes.len(),
    ensures
        ({
            let (p2, q2, shapes2) = raycast_after(p, q, shapes, raycast, hand);
            let after = phase_of(p2, q2);
            &&& web_wf(p2, q2, shapes2)
            &&& raycast is None ==> after == phase_of(p, q)
            &&& raycast matches Some(hit) ==> (if shapes[hit.0 as int].shape.stickable {
                after == WebPhase::Attached
            } else {
                after == WebPhase::Failed
            })
        }),
{
    let (p2, q2, shapes2) = raycast_after(p, q, shapes, raycast, hand);
    match raycast {
        Some((hit, x)) => {
            if shapes[hit as int].shape.stickable {
                assert(hinged_at(q2, shapes2, hit as int));
            }
        },
        None => {},
    }
}

/// Bringing the bars up to date keeps the world well formed.
pub proof fn lemma_bars_keep_wf(p: ControlsInput, q: WebWorld, shapes: Seq<ShapeEntity>)
    requires
        web_wf(p, q, shapes),
    ensures
        web_wf(
            p,
            WebWorld {
                web_connections: bars_after(
                    p.web_connection_entities,
                    q.player,
                    q.web_parts,
                    q.web_connections,
                ),
                ..q
            },
            shapes,
        ),
{
    let q2 = WebWorld {
        web_connections: bars_after(p.web_connection_entities, q.player, q.web_parts, q.web_connections),
        ..q
    };
    if phase_of(p, q) == WebPhase::Attached {
        let hit = choose|hit: int| hinged_at(q, shapes, hit);
        assert(hinged_at(q2, shapes, hit));
    }
}

} // verus!
