//! The bars that are drawn between the segments of the web.

use vstd::prelude::*;
use crate::game::player::components::{Player, WebPart, WebPartConnection};
use crate::game::player::controls::controls::{PlayerControlsQueries, WebPartEntities};
use crate::game::player::controls::raycast::SEGMENT_DIAMETER;
use crate::geometry::{Transform, Vec2};
use crate::physics::Entity;
use crate::util::ExtraTransformMethods;

verus! {

/// Where the body named `entity` is, if there is such a body.
pub open spec fn spec_position_of(player: Option<Player>, parts: Seq<WebPart>, entity: Entity) -> Option<
    Vec2,
> {
    match entity {
        Entity::WebPart(i) => if i < parts.len() {
            Some(parts[i as int].translation)
        } else {
            None
        },
        Entity::Shape(_) => None,
        Entity::Body => match player {
            Some(pl) => Some(pl.body.transform.translation),
            None => None,
        },
        Entity::ArmLeft => match player {
            Some(pl) => Some(pl.arm_l.transform.translation),
            None => None,
        },
        Entity::ArmRight => match player {
            Some(pl) => Some(pl.arm_r.transform.translation),
            None => None,
        },
        Entity::EyeRight => match player {
            Some(pl) => Some(pl.eyes[0].transform.translation),
            None => None,
        },
        Entity::EyeLeft => match player {
            Some(pl) => Some(pl.eyes[1].transform.translation),
            None => None,
        },
    }
}

/// Where the body named `entity` is, if there is such a body. The shapes of
/// the level are not looked up here.
pub fn position_of(player: &Option<Player>, parts: &Vec<WebPart>, entity: Entity) -> (r: Option<Vec2>)
    ensures
        r == spec_position_of(*player, parts@, entity),
{
    match entity {
        Entity::WebPart(i) => if i < parts.len() {
            Some(parts[i].translation)
        } else {
            None
        },
        Entity::Shape(_) => None,
        Entity::Body => match player {
            Some(pl) => Some(pl.body.transform.translation),
            None => None,
        },
        Entity::ArmLeft => match player {
            Some(pl) => Some(pl.arm_l.transform.translation),
            None => None,
        },
        Entity::ArmRight => match player {
            Some(pl) => Some(pl.arm_r.transform.translation),
            None => None,
        },
        Entity::EyeRight => match player {
            Some(pl) => Some(pl.eyes[0].transform.translation),
            None => None,
        },
        Entity::EyeLeft => match player {
            Some(pl) => Some(pl.eyes[1].transform.translation),
            None => None,
        },
    }
}

/// The bar between the bodies `e1` and `e2`, if both are there.
pub open spec fn bar_between(player: Option<Player>, parts: Seq<WebPart>, e1: Entity, e2: Entity) -> Option<
    WebPartConnection,
> {
    match (spec_position_of(player, parts, e1), spec_position_of(player, parts, e2)) {
        (Some(p1), Some(p2)) => Some(
            WebPartConnection { e1, e2, transform: Transform::spec_from_pt_to_pt(p1, p2, SEGMENT_DIAMETER) },
        ),
        _ => None,
    }
}

/// The bars between the first `k + 1` bodies of the chain: one for each pair of
/// neighbours that are both there.
pub open spec fn bars_made(
    player: Option<Player>,
    parts: Seq<WebPart>,
    entities: Seq<Entity>,
    k: int,
) -> Seq<WebPartConnection>
    decreases k,
{
    if k <= 0 {
        Seq::empty()
    } else {
        let before = bars_made(player, parts, entities, k - 1);
        match bar_between(player, parts, entities[k - 1], entities[k]) {
            Some(bar) => before.push(bar),
            None => before,
        }
    }
}

/// A bar laid anew between its two bodies; left as it is where one of them is gone.
pub open spec fn bar_updated(player: Option<Player>, parts: Seq<WebPart>, bar: WebPartConnection) -> WebPartConnection {
    match bar_between(player, parts, bar.e1, bar.e2) {
        Some(fresh) => fresh,
        None => bar,
    }
}

/// The bars after the frame: none while the chain is empty; made for every pair
/// of neighbours in the chain where there were none; else each laid anew.
pub open spec fn bars_after(
    entities: Seq<Entity>,
    player: Option<Player>,
    parts: Seq<WebPart>,
    bars: Seq<WebPartConnection>,
) -> Seq<WebPartConnection> {
    if entities.len() == 0 {
        bars
    } else if bars.len() == 0 {
        bars_made(player, parts, entities, entities.len() - 1)
    } else {
        Seq::new(bars.len(), |i: int| bar_updated(player, parts, bars[i]))
    }
}

/// The bar between the bodies `e1` and `e2`, if both are there.
fn make_bar(player: &Option<Player>, parts: &Vec<WebPart>, e1: Entity, e2: Entity) -> (r: Option<
    WebPartConnection,
>)
    ensures
        r == bar_between(*player, parts@, e1, e2),
{
    match (position_of(player, parts, e1), position_of(player, parts, e2)) {
        (Some(p1), Some(p2)) => Some(
            WebPartConnection { e1, e2, transform: Transform::from_pt_to_pt(p1, p2, SEGMENT_DIAMETER) },
        ),
        _ => None,
    }
}

/// Keeps the bars between the segments in step with the segments.
pub fn update_web_connections(web_parts: &WebPartEntities, query: &mut PlayerControlsQueries)
    ensures
        final(query).web_connections@ == bars_after(
            web_parts.entities@,
            old(query).player,
            old(query).web_part_entities@,
            old(query).web_connections@,
        ),
        final(query).player == old(query).player,
        final(query).shooting == old(query).shooting,
        final(query).web_part_entities@ == old(query).web_part_entities@,
        final(query).web_shot_entities@ == old(query).web_shot_entities@,
{
    if web_parts.entities.len() == 0 {
        return ;
    }
    if query.web_connections.len() == 0 {
        let mut i: usize = 1;
        while i < web_parts.entities.len()
            invariant
                1 <= i <= web_parts.entities@.len(),
                query.player == old(query).player,
                query.shooting == old(query).shooting,
                query.web_part_entities@ == old(query).web_part_entities@,
                query.web_shot_entities@ == old(query).web_shot_entities@,
                query.web_connections@ == bars_made(
                    query.player,
                    query.web_part_entities@,
                    web_parts.entities@,
                    i - 1,
                ),
            decreases web_parts.entities@.len() - i,
        {
            let e1 = web_parts.entities[i - 1];
            let e2 = web_parts.entities[i];
            match make_bar(&query.player, &query.web_part_entities, e1, e2) {
                Some(bar) => {
                    query.web_connections.push(bar);
                },
                None => {},
            }
            i = i + 1;
        }
    } else {
        let mut i: usize = 0;
        while i < query.web_connections.len()
            invariant
                0 <= i <= query.web_connections@.len(),
                query.player == old(query).player,
                query.shooting == old(query).shooting,
                query.web_part_entities@ == old(query).web_part_entities@,
                query.web_shot_entities@ == old(query).web_shot_entities@,
                query.web_connections@.len() == old(query).web_connections@.len(),
                forall|k: int|
                    0 <= k < i ==> query.web_connections@[k] == bar_updated(
                        query.player,
                        query.web_part_entities@,
                        old(query).web_connections@[k],
                    ),
                forall|k: int|
                    i <= k < query.web_connections@.len() ==> query.web_connections@[k] == old(
                        query,
                    ).web_connections@[k],
            decreases query.web_connections@.len() - i,
        {
            let bar = query.web_connections[i];
            match make_bar(&query.player, &query.web_part_entities, bar.e1, bar.e2) {
                Some(fresh) => {
                    query.web_connections[i] = fresh;
                },
                None => {},
            }
            i = i + 1;
        }
        assert(query.web_connections@ =~= bars_after(
            web_parts.entities@,
            old(query).player,
            old(query).web_part_entities@,
            old(query).web_connections@,
        ));
    }
}

} // verus!
