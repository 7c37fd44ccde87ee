//! Marking the shape under the pointer.

use vstd::prelude::*;
use crate::editor::components::{Hovered, ShapeEntity};
use crate::game::level::Level;
use crate::input::MouseInput;
use crate::physics::{CollisionGroups, GROUP_ALL, GROUP_LEVEL};
use crate::util::Cursor;

verus! {

/// What the engine is to look for under the pointer: the level's shapes.
pub open spec fn spec_hover_filter() -> CollisionGroups {
    CollisionGroups { memberships: GROUP_ALL, filters: GROUP_LEVEL }
}

/// What the engine is to look for under the pointer.
#[verifier::when_used_as_spec(spec_hover_filter)]
pub fn hover_filter() -> (r: CollisionGroups)
    ensures
        r == spec_hover_filter(),
{
    CollisionGroups::new(GROUP_ALL, GROUP_LEVEL)
}

/// The shape that the pointer is over: the last that the engine reported.
pub open spec fn spec_topmost(hits: Seq<usize>) -> Option<usize> {
    if hits.len() > 0 {
        Some(hits.last())
    } else {
        None
    }
}

/// The shape that the pointer is over.
pub fn topmost(hits: &Vec<usize>) -> (r: Option<usize>)
    ensures
        r == spec_topmost(hits@),
{
    if hits.len() > 0 {
        Some(hits[hits.len() - 1])
    } else {
        None
    }
}

/// Whether the shape at place `i` is the one that the pointer is over.
pub open spec fn is_topmost(hits: Seq<usize>, i: int) -> bool {
    hits.len() > 0 && hits.last() == i
}

/// A shape with the hover mark put on or taken off.
pub open spec fn with_hover(shape: ShapeEntity, on: bool) -> ShapeEntity {
    ShapeEntity {
        hovered: if on {
            Some(Hovered)
        } else {
            None
        },
        ..shape
    }
}

/// The shapes after a frame in which the engine reported the shapes `hits`
/// under the pointer. While the marquee is being drawn, that is while the right
/// button is down, or while the pointer rests, nothing changes. Else the last
/// of `hits` is the one hovered shape.
pub open spec fn hover_after(
    shapes: Seq<ShapeEntity>,
    mouse: MouseInput,
    cursor: Cursor,
    hits: Seq<usize>,
) -> Seq<ShapeEntity> {
    if mouse.right.pressed || !cursor.moved {
        shapes
    } else {
        Seq::new(shapes.len(), |i: int| with_hover(shapes[i], is_topmost(hits, i)))
    }
}

/// Moves the hover mark to the shape under the pointer. `hits` holds the places
/// of the shapes that the engine found at the pointer's place in the world, in
/// the order in which it reported them.
pub fn hover_shapes(level: &mut Level, mouse: &MouseInput, cursor: &Cursor, hits: &Vec<usize>)
    ensures
        final(level).shapes@ == hover_after(old(level).shapes@, *mouse, *cursor, hits@),
{
    if mouse.right.pressed {
        return ;
    }
    if cursor.moved {
        let last = topmost(hits);
        let mut i: usize = 0;
        while i < level.shapes.len()
            invariant
                0 <= i <= level.shapes@.len(),
                level.shapes@.len() == old(level).shapes@.len(),
                last == spec_topmost(hits@),
                forall|k: int|
                    0 <= k < i ==> level.shapes@[k] == with_hover(
                        old(level).shapes@[k],
                        is_topmost(hits@, k),
                    ),
                forall|k: int| i <= k < level.shapes@.len() ==> level.shapes@[k] == old(level).shapes@[k],
            decreases level.shapes@.len() - i,
        {
            let mut shape = level.shapes[i];
            let is_last = match last {
                Some(hovered) => hovered == i,
                None => false,
            };
            if is_last {
                shape.hovered = Some(Hovered);
            } else {
                shape.hovered = None;
            }
            level.shapes[i] = shape;
            i = i + 1;
        }
        assert(level.shapes@ =~= hover_after(old(level).shapes@, *mouse, *cursor, hits@));
    }
}

/// Once the pointer has moved with the right button up, at most one shape is
/// hovered, and it is the one that the engine reported last.
pub proof fn lemma_one_hovered(
    shapes: Seq<ShapeEntity>,
    mouse: MouseInput,
    cursor: Cursor,
    hits: Seq<usize>,
    i: int,
    j: int,
)
    requires
        !mouse.right.pressed,
        cursor.moved,
        0 <= i < shapes.len(),
        0 <= j < shapes.len(),
        hover_after(shapes, mouse, cursor, hits)[i].hovered is Some,
        hover_after(shapes, mouse, cursor, hits)[j].hovered is Some,
    ensures
        i == j,
        hits.len() > 0,
        hits.last() == i,
{
}

} // verus!
