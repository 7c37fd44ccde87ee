//! Keeping the tint of the shapes in step with their state.

use vstd::prelude::*;
use crate::editor::components::ShapeEntity;
use crate::game::level::Level;
use crate::util::{update_color_material, ColorMaterial, ColorUpdate, ZipAllTrait};

verus! {

/// The ways in which the state that decides a shape's tint can change.
#[derive(Clone, Copy, PartialEq, Eq, Debug, Structural)]
pub enum ColorStateChange {
    AddHover,
    AddSelect,
    RemHover,
    RemSelect,
    ChangeSticky,
}

/// Whether `shape` has changed in the way `change` since it was last painted.
pub open spec fn spec_applies(shape: ShapeEntity, change: ColorStateChange) -> bool {
    match change {
        ColorStateChange::AddHover => shape.hovered is Some && !shape.painted.hovered,
        ColorStateChange::AddSelect => shape.selected is Some && !shape.painted.selected,
        ColorStateChange::RemHover => shape.hovered is None && shape.painted.hovered,
        ColorStateChange::RemSelect => shape.selected is None && shape.painted.selected,
        ColorStateChange::ChangeSticky => shape.shape.stickable != shape.painted.stickable,
    }
}

/// Whether `shape` has changed in the way `change` since it was last painted.
pub fn applies(shape: &ShapeEntity, change: ColorStateChange) -> (r: bool)
    ensures
        r == spec_applies(*shape, change),
{
    match change {
        ColorStateChange::AddHover => shape.hovered.is_some() && !shape.painted.hovered,
        ColorStateChange::AddSelect => shape.selected.is_some() && !shape.painted.selected,
        ColorStateChange::RemHover => shape.hovered.is_none() && shape.painted.hovered,
        ColorStateChange::RemSelect => shape.selected.is_none() && shape.painted.selected,
        ColorStateChange::ChangeSticky => shape.shape.stickable != shape.painted.stickable,
    }
}

/// Whether the state that decides the tint of `shape` has changed since it was
/// last painted.
pub open spec fn is_stale(shape: ShapeEntity) -> bool {
    shape.painted != shape.spec_color_state()
}

/// A shape painted for the state it is in.
pub open spec fn repainted(shape: ShapeEntity) -> ShapeEntity {
    ShapeEntity {
        material: ColorMaterial { color: shape.spec_color_state().spec_get_color() },
        painted: shape.spec_color_state(),
        ..shape
    }
}

/// The shapes after the tints have been brought up to date: every shape whose
/// state has changed is painted anew, and no other.
pub open spec fn colors_after(shapes: Seq<ShapeEntity>) -> Seq<ShapeEntity> {
    Seq::new(
        shapes.len(),
        |i: int|
            if is_stale(shapes[i]) {
                repainted(shapes[i])
            } else {
                shapes[i]
            },
    )
}

/// A shape is stale exactly when it has changed in one of the five ways.
pub proof fn lemma_stale_has_change(shape: ShapeEntity)
    ensures
        is_stale(shape) <==> exists|change: ColorStateChange| spec_applies(shape, change),
{
    if is_stale(shape) {
        if shape.painted.stickable != shape.shape.stickable {
            assert(spec_applies(shape, ColorStateChange::ChangeSticky));
        } else if shape.painted.selected != (shape.selected is Some) {
            if shape.selected is Some {
                assert(spec_applies(shape, ColorStateChange::AddSelect));
            } else {
                assert(spec_applies(shape, ColorStateChange::RemSelect));
            }
        } else {
            if shape.hovered is Some {
                assert(spec_applies(shape, ColorStateChange::AddHover));
            } else {
                assert(spec_applies(shape, ColorStateChange::RemHover));
            }
        }
    }
}

/// The places of the shapes that have changed in the way `change`, in rising order.
pub fn changed_shapes(shapes: &Vec<ShapeEntity>, change: ColorStateChange) -> (r: Vec<usize>)
    ensures
        forall|k: int|
            0 <= k < r@.len() ==> (#[trigger] r@[k]) < shapes@.len() && spec_applies(
                shapes@[r@[k] as int],
                change,
            ),
        forall|j: int, k: int| 0 <= j < k < r@.len() ==> r@[j] < r@[k],
        forall|i: int|
            0 <= i < shapes@.len() && spec_applies(#[trigger] shapes@[i], change) ==> exists|k: int|
                0 <= k < r@.len() && r@[k] == i,
{
    let mut out: Vec<usize> = Vec::new();
    let mut i: usize = 0;
    while i < shapes.len()
        invariant
            0 <= i <= shapes@.len(),
            forall|k: int|
                0 <= k < out@.len() ==> (#[trigger] out@[k]) < i && spec_applies(
                    shapes@[out@[k] as int],
                    change,
                ),
            forall|j: int, k: int| 0 <= j < k < out@.len() ==> out@[j] < out@[k],
            forall|j: int|
                0 <= j < i && spec_applies(#[trigger] shapes@[j], change) ==> exists|k: int|
                    0 <= k < out@.len() && out@[k] == j,
        decreases shapes@.len() - i,
    {
        if applies(&shapes[i], change) {
            let ghost before = out@;
            out.push(i);
            proof {
                assert(out@[before.len() as int] == i);
                assert forall|j: int| 0 <= j < i + 1 && spec_applies(#[trigger] shapes@[j], change) implies exists|
                    k: int,
                | 0 <= k < out@.len() && out@[k] == j by {
                    if j < i {
                        let k = choose|k: int| 0 <= k < before.len() && before[k] == j;
                        assert(out@[k] == j);
                    } else {
                        assert(out@[before.len() as int] == j);
                    }
                }
            }
        }
        i = i + 1;
    }
    out
}

/// What an entry of the list of changes has to say: it names a shape, and the
/// shape has changed in the way that the entry says.
pub open spec fn entry_holds(shapes: Seq<ShapeEntity>, entry: (usize, ColorStateChange)) -> bool {
    entry.0 < shapes.len() && spec_applies(shapes[entry.0 as int], entry.1)
}

/// Adds to `updated` an entry for every shape that has changed in the way `change`.
fn note_changes(
    updated: &mut Vec<(usize, ColorStateChange)>,
    shapes: &Vec<ShapeEntity>,
    change: ColorStateChange,
)
    requires
        forall|k: int| 0 <= k < old(updated)@.len() ==> entry_holds(shapes@, #[trigger] old(updated)@[k]),
    ensures
        forall|k: int| 0 <= k < final(updated)@.len() ==> entry_holds(shapes@, #[trigger] final(updated)@[k]),
        forall|k: int| 0 <= k < old(updated)@.len() ==> final(updated)@[k] == old(updated)@[k],
        final(updated)@.len() >= old(updated)@.len(),
        forall|i: int|
            0 <= i < shapes@.len() && spec_applies(#[trigger] shapes@[i], change) ==> exists|k: int|
                0 <= k < final(updated)@.len() && final(updated)@[k].0 == i,
{
    let found = changed_shapes(shapes, change);
    let ghost found_seq = found@;
    let mut pairs: Vec<(usize, ColorStateChange)> = found.zip_all(change).collect();
    let ghost pairs_seq = pairs@;
    assert(pairs_seq.len() == found_seq.len());
    assert forall|k: int| 0 <= k < pairs_seq.len() implies pairs_seq[k] == (found_seq[k], change) by {}
    updated.append(&mut pairs);
    proof {
        assert(updated@ =~= old(updated)@ + pairs_seq);
        assert forall|k: int| 0 <= k < updated@.len() implies entry_holds(shapes@, #[trigger] updated@[k]) by {
            if k >= old(updated)@.len() {
                let j = k - old(updated)@.len();
                assert(updated@[k] == pairs_seq[j]);
                assert(found_seq[j] < shapes@.len());
            }
        }
        assert forall|i: int| 0 <= i < shapes@.len() && spec_applies(#[trigger] shapes@[i], change) implies exists|
            k: int,
        | 0 <= k < updated@.len() && updated@[k].0 == i by {
            let j = choose|j: int| 0 <= j < found_seq.len() && found_seq[j] == i;
            assert(updated@[old(updated)@.len() + j] == pairs_seq[j]);
        }
    }
}

/// Brings the tint of every shape up to date with its state.
///
/// The shapes whose selection or hover mark was put on or taken off, or whose
/// stickiness changed, since they were last painted are listed way by way, and
/// each shape listed is painted for the state it is in.
pub fn color_handler(level: &mut Level)
    ensures
        final(level).shapes@ == colors_after(old(level).shapes@),
{
    let mut updated_entities: Vec<(usize, ColorStateChange)> = Vec::new();
    note_changes(&mut updated_entities, &level.shapes, ColorStateChange::AddSelect);
    note_changes(&mut updated_entities, &level.shapes, ColorStateChange::AddHover);
    note_changes(&mut updated_entities, &level.shapes, ColorStateChange::RemSelect);
    note_changes(&mut updated_entities, &level.shapes, ColorStateChange::RemHover);
    note_changes(&mut updated_entities, &level.shapes, ColorStateChange::ChangeSticky);
    let ghost entries = updated_entities@;
    proof {
        assert forall|i: int| 0 <= i < level.shapes@.len() && is_stale(#[trigger] level.shapes@[i]) implies exists|
            k: int,
        | 0 <= k < entries.len() && entries[k].0 == i by {
            lemma_stale_has_change(level.shapes@[i]);
        }
    }
    let mut n: usize = 0;
    while n < updated_entities.len()
        invariant
            0 <= n <= entries.len(),
            updated_entities@ == entries,
            level.shapes@.len() == old(level).shapes@.len(),
            forall|k: int| 0 <= k < entries.len() ==> entry_holds(old(level).shapes@, #[trigger] entries[k]),
            forall|i: int|
                0 <= i < level.shapes@.len() ==> (#[trigger] level.shapes@[i]) == old(level).shapes@[i]
                    || level.shapes@[i] == repainted(old(level).shapes@[i]),
            forall|i: int|
                0 <= i < level.shapes@.len() && !is_stale(#[trigger] old(level).shapes@[i])
                    ==> level.shapes@[i] == old(level).shapes@[i],
            forall|k: int|
                0 <= k < n ==> level.shapes@[(#[trigger] entries[k]).0 as int] == repainted(
                    old(level).shapes@[entries[k].0 as int],
                ),
        decreases entries.len() - n,
    {
        let (entity, state) = updated_entities[n];
        assert(entry_holds(old(level).shapes@, entries[n as int]));
        proof {
            lemma_stale_has_change(old(level).shapes@[entity as int]);
        }
        let mut shape = level.shapes[entity];
        let (sel, hov): (Option<bool>, Option<bool>) = match state {
            ColorStateChange::AddHover => (None, Some(true)),
            ColorStateChange::AddSelect => (Some(true), None),
            ColorStateChange::RemHover => (None, Some(false)),
            ColorStateChange::RemSelect => (Some(false), None),
            ColorStateChange::ChangeSticky => (None, None),
        };
        let update = ColorUpdate {
            selected: match sel {
                Some(on) => on,
                None => shape.selected.is_some(),
            },
            hovered: match hov {
                Some(on) => on,
                None => shape.hovered.is_some(),
            },
            stickable: shape.shape.stickable,
        };
        update_color_material(&mut shape.material, update);
        shape.painted = update;
        level.shapes[entity] = shape;
        n = n + 1;
    }
    proof {
        assert forall|i: int| 0 <= i < level.shapes@.len() implies level.shapes@[i] == colors_after(
            old(level).shapes@,
        )[i] by {
            let shape = old(level).shapes@[i];
            lemma_stale_has_change(shape);
            if is_stale(shape) {
                let k = choose|k: int| 0 <= k < entries.len() && entries[k].0 == i;
                assert(level.shapes@[entries[k].0 as int] == repainted(old(level).shapes@[entries[k].0 as int]));
            }
        }
        assert(level.shapes@ =~= colors_after(old(level).shapes@));
    }
}

} // verus!
