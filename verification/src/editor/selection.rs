//! Moving, scaling and turning the selected shapes.

use vstd::prelude::*;
use crate::editor::components::{Selected, ShapeEntity};
use crate::game::level::Level;
use crate::geometry::{Direction, Transform, Vec2};
use crate::input::{KeyboardInput, MouseInput};
use crate::math::{floor_div, saturate, saturated};
use crate::physics::Body;
use crate::util::Cursor;

verus! {

/// The step by which a key scales a shape, and half the step by which a key
/// moves it.
pub const COARSE_STEP: i64 = 1000;

/// The same step while the modifier key is down.
pub const FINE_STEP: i64 = 200;

/// The cosine of a twentieth of a radian, by which a key turns a shape.
pub const TURN_COS: i64 = 998_750;

/// The sine of a twentieth of a radian.
pub const TURN_SIN: i64 = 49_979;

/// The cosine of a hundredth of a radian, by which a key turns a shape while
/// the modifier key is down.
pub const FINE_TURN_COS: i64 = 999_950;

/// The sine of a hundredth of a radian.
pub const FINE_TURN_SIN: i64 = 10_000;

/// The step that goes with the state of the modifier key.
pub open spec fn spec_step(keyboard: KeyboardInput) -> i64 {
    if keyboard.l_shift.pressed {
        FINE_STEP
    } else {
        COARSE_STEP
    }
}

/// The turn of one key: clockwise or counter-clockwise, fine or coarse.
pub open spec fn spec_key_turn(keyboard: KeyboardInput, clockwise: bool) -> Direction {
    let (cos, sin) = if keyboard.l_shift.pressed {
        (FINE_TURN_COS, FINE_TURN_SIN)
    } else {
        (TURN_COS, TURN_SIN)
    };
    Direction {
        x: cos,
        y: if clockwise {
            (-sin) as i64
        } else {
            sin
        },
    }
}

/// `value` raised by `by` where `up` holds and then lowered by `by` where `down` holds.
pub open spec fn spec_nudged(value: i64, by: i64, up: bool, down: bool) -> i64 {
    let raised = if up {
        saturated(value + by)
    } else {
        value
    };
    if down {
        saturated(raised - by)
    } else {
        raised
    }
}

/// The scale of the one selected shape after the arrow keys.
pub open spec fn spec_scaled_by_keys(scale: Vec2, keyboard: KeyboardInput) -> Vec2 {
    Vec2 {
        x: spec_nudged(scale.x, spec_step(keyboard), keyboard.right.pressed, keyboard.left.pressed),
        y: spec_nudged(scale.y, spec_step(keyboard), keyboard.up.pressed, keyboard.down.pressed),
    }
}

/// A rotation after the turn keys: first the clockwise one, then the other.
pub open spec fn spec_turned_by_keys(rotation: Direction, keyboard: KeyboardInput) -> Direction {
    let first = if keyboard.e.pressed {
        rotation.spec_followed_by(spec_key_turn(keyboard, true))
    } else {
        rotation
    };
    if keyboard.q.pressed {
        first.spec_followed_by(spec_key_turn(keyboard, false))
    } else {
        first
    }
}

/// A placement turned by `turn` about the point `center`.
pub open spec fn spec_turned_about(transform: Transform, center: Vec2, turn: Direction) -> Transform {
    Transform {
        translation: center.spec_plus(turn.spec_rotate(transform.translation.spec_minus(center))),
        rotation: transform.rotation.spec_followed_by(turn),
        scale: transform.scale,
    }
}

/// A place after the movement keys, each of which moves by two steps.
pub open spec fn spec_moved_by_keys(translation: Vec2, keyboard: KeyboardInput) -> Vec2 {
    Vec2 {
        x: spec_nudged(
            translation.x,
            (2 * spec_step(keyboard)) as i64,
            keyboard.d.just_pressed,
            keyboard.a.just_pressed,
        ),
        y: spec_nudged(
            translation.y,
            (2 * spec_step(keyboard)) as i64,
            keyboard.w.just_pressed,
            keyboard.s.just_pressed,
        ),
    }
}

/// A place after the drag: it follows the pointer while the left button is held.
pub open spec fn spec_dragged(translation: Vec2, mouse: MouseInput, cursor: Cursor) -> Vec2 {
    if mouse.left.spec_held() {
        translation.spec_minus(cursor.delta)
    } else {
        translation
    }
}

/// How many of the shapes are selected.
pub open spec fn selected_count(shapes: Seq<ShapeEntity>) -> nat
    decreases shapes.len(),
{
    if shapes.len() == 0 {
        0
    } else {
        selected_count(shapes.drop_last()) + if shapes.last().selected is Some {
            1nat
        } else {
            0nat
        }
    }
}

/// The sum of the x coordinates of the selected shapes.
pub open spec fn selected_sum_x(shapes: Seq<ShapeEntity>) -> int
    decreases shapes.len(),
{
    if shapes.len() == 0 {
        0
    } else {
        selected_sum_x(shapes.drop_last()) + if shapes.last().selected is Some {
            shapes.last().body.transform.translation.x as int
        } else {
            0
        }
    }
}

/// The sum of the y coordinates of the selected shapes.
pub open spec fn selected_sum_y(shapes: Seq<ShapeEntity>) -> int
    decreases shapes.len(),
{
    if shapes.len() == 0 {
        0
    } else {
        selected_sum_y(shapes.drop_last()) + if shapes.last().selected is Some {
            shapes.last().body.transform.translation.y as int
        } else {
            0
        }
    }
}

/// The mean of the places of the selected shapes, rounded down; the origin
/// where nothing is selected.
pub open spec fn centroid(shapes: Seq<ShapeEntity>) -> Vec2 {
    if selected_count(shapes) == 0 {
        Vec2::spec_zero()
    } else {
        Vec2 {
            x: saturated(selected_sum_x(shapes) / selected_count(shapes) as int),
            y: saturated(selected_sum_y(shapes) / selected_count(shapes) as int),
        }
    }
}

/// Whether some shape is hovered.
pub open spec fn some_hovered(shapes: Seq<ShapeEntity>) -> bool {
    exists|i: int| 0 <= i < shapes.len() && (#[trigger] shapes[i]).hovered is Some
}

/// Whether some hovered shape is selected.
pub open spec fn some_hovered_selected(shapes: Seq<ShapeEntity>) -> bool {
    exists|i: int|
        0 <= i < shapes.len() && (#[trigger] shapes[i]).hovered is Some && shapes[i].selected is Some
}

/// Whether a click of the left button replaces the selection by what is
/// hovered: something is hovered, and nothing hovered is selected already.
pub open spec fn click_replaces(shapes: Seq<ShapeEntity>, mouse: MouseInput) -> bool {
    mouse.left.just_pressed && some_hovered(shapes) && !some_hovered_selected(shapes)
}

/// What a frame's input does to the selected shapes.
pub struct Manipulation {
    /// Exactly one shape is selected.
    pub single: bool,
    /// The mean of the places of the selected shapes.
    pub center: Vec2,
    /// The selection is replaced by what is hovered.
    pub replace: bool,
}

/// What the input does, given the shapes as they are.
pub open spec fn manipulation_of(shapes: Seq<ShapeEntity>, mouse: MouseInput) -> Manipulation {
    Manipulation {
        single: selected_count(shapes) == 1,
        center: centroid(shapes),
        replace: click_replaces(shapes, mouse),
    }
}

/// The placement of a selected shape after the frame. The one selected shape is
/// scaled by the arrow keys and turned about itself by the turn keys; of
/// several, each is turned about their common centre. Then the movement keys
/// and the drag move it.
pub open spec fn spec_manipulated_transform(
    transform: Transform,
    how: Manipulation,
    keyboard: KeyboardInput,
    mouse: MouseInput,
    cursor: Cursor,
) -> Transform {
    let turned = if how.single {
        Transform {
            translation: transform.translation,
            rotation: spec_turned_by_keys(transform.rotation, keyboard),
            scale: spec_scaled_by_keys(transform.scale, keyboard),
        }
    } else if keyboard.q.pressed || keyboard.e.pressed {
        spec_turned_about(
            transform,
            how.center,
            spec_turned_by_keys(Direction::spec_identity(), keyboard),
        )
    } else {
        transform
    };
    Transform {
        translation: spec_dragged(spec_moved_by_keys(turned.translation, keyboard), mouse, cursor),
        ..turned
    }
}

/// A shape after the frame: manipulated if it was selected, and selected anew
/// if the click replaces the selection.
pub open spec fn spec_manipulated(
    shape: ShapeEntity,
    how: Manipulation,
    keyboard: KeyboardInput,
    mouse: MouseInput,
    cursor: Cursor,
) -> ShapeEntity {
    ShapeEntity {
        body: if shape.selected is Some {
            Body {
                transform: spec_manipulated_transform(shape.body.transform, how, keyboard, mouse, cursor),
                ..shape.body
            }
        } else {
            shape.body
        },
        selected: if how.replace {
            if shape.hovered is Some {
                Some(Selected)
            } else {
                None
            }
        } else {
            shape.selected
        },
        ..shape
    }
}

/// The shapes after the frame.
pub open spec fn manipulation_after(
    shapes: Seq<ShapeEntity>,
    keyboard: KeyboardInput,
    mouse: MouseInput,
    cursor: Cursor,
) -> Seq<ShapeEntity> {
    Seq::new(
        shapes.len(),
        |i: int| spec_manipulated(shapes[i], manipulation_of(shapes, mouse), keyboard, mouse, cursor),
    )
}

/// `value` raised and lowered as the keys say.
fn nudged(value: i64, by: i64, up: bool, down: bool) -> (r: i64)
    ensures
        r == spec_nudged(value, by, up, down),
{
    let raised: i64 = if up { saturate(value as i128 + by as i128) } else { value };
    if down {
        saturate(raised as i128 - by as i128)
    } else {
        raised
    }
}

/// The step that goes with the state of the modifier key.
fn step(keyboard: &KeyboardInput) -> (r: i64)
    ensures
        r == spec_step(*keyboard),
{
    if keyboard.l_shift.pressed {
        FINE_STEP
    } else {
        COARSE_STEP
    }
}

/// A rotation after the turn keys.
fn turned_by_keys(rotation: Direction, keyboard: &KeyboardInput) -> (r: Direction)
    ensures
        r == spec_turned_by_keys(rotation, *keyboard),
{
    let (cos, sin): (i64, i64) = if keyboard.l_shift.pressed {
        (FINE_TURN_COS, FINE_TURN_SIN)
    } else {
        (TURN_COS, TURN_SIN)
    };
    let mut turned = rotation;
    if keyboard.e.pressed {
        turned = turned.followed_by(Direction { x: cos, y: -sin });
    }
    if keyboard.q.pressed {
        turned = turned.followed_by(Direction { x: cos, y: sin });
    }
    turned
}

/// The placement of a selected shape after the frame.
fn manipulated_transform(
    transform: Transform,
    how: &Manipulation,
    keyboard: &KeyboardInput,
    mouse: &MouseInput,
    cursor: &Cursor,
) -> (r: Transform)
    ensures
        r == spec_manipulated_transform(transform, *how, *keyboard, *mouse, *cursor),
{
    let by = step(keyboard);
    let mut turned = transform;
    if how.single {
        turned.scale = Vec2 {
            x: nudged(transform.scale.x, by, keyboard.right.pressed, keyboard.left.pressed),
            y: nudged(transform.scale.y, by, keyboard.up.pressed, keyboard.down.pressed),
        };
        turned.rotation = turned_by_keys(transform.rotation, keyboard);
    } else if keyboard.q.pressed || keyboard.e.pressed {
        let rot = turned_by_keys(Direction::identity(), keyboard);
        turned.translation = how.center.plus(rot.rotate(transform.translation.minus(how.center)));
        turned.rotation = transform.rotation.followed_by(rot);
    }
    let moved = Vec2 {
        x: nudged(turned.translation.x, 2 * by, keyboard.d.just_pressed, keyboard.a.just_pressed),
        y: nudged(turned.translation.y, 2 * by, keyboard.w.just_pressed, keyboard.s.just_pressed),
    };
    turned.translation = if mouse.left.held() {
        moved.minus(cursor.delta)
    } else {
        moved
    };
    turned
}

/// Looks at the shapes as they are and says what the input does to them.
fn survey(level: &Level, mouse: &MouseInput) -> (how: Manipulation)
    ensures
        how == manipulation_of(level.shapes@, *mouse),
{
    let mut count: usize = 0;
    let mut sum_x: i128 = 0;
    let mut sum_y: i128 = 0;
    let mut hovered: bool = false;
    let mut hovered_selected: bool = false;
    let mut i: usize = 0;
    while i < level.shapes.len()
        invariant
            0 <= i <= level.shapes@.len(),
            count == selected_count(level.shapes@.take(i as int)),
            count <= i,
            sum_x == selected_sum_x(level.shapes@.take(i as int)),
            sum_y == selected_sum_y(level.shapes@.take(i as int)),
            -0x8000_0000_0000_0000 * i <= sum_x <= 0x8000_0000_0000_0000 * i,
            -0x8000_0000_0000_0000 * i <= sum_y <= 0x8000_0000_0000_0000 * i,
            hovered == some_hovered(level.shapes@.take(i as int)),
            hovered_selected == some_hovered_selected(level.shapes@.take(i as int)),
        decreases level.shapes@.len() - i,
    {
        let ghost before = level.shapes@.take(i as int);
        let ghost after = level.shapes@.take(i + 1);
        proof {
            assert(after.drop_last() =~= before);
            assert(after.last() == level.shapes@[i as int]);
            assert(0x8000_0000_0000_0000 * i <= 0x8000_0000_0000_0000 * 0xffff_ffff_ffff_ffff)
                by (nonlinear_arith)
                requires
                    0 <= i <= 0xffff_ffff_ffff_ffff,
            ;
            if some_hovered(after) {
                let w = choose|w: int| 0 <= w < after.len() && (#[trigger] after[w]).hovered is Some;
                if w < i {
                    assert(before[w].hovered is Some);
                }
            }
            if some_hovered(before) {
                let w = choose|w: int| 0 <= w < before.len() && (#[trigger] before[w]).hovered is Some;
                assert(after[w].hovered is Some);
            }
            if some_hovered_selected(after) {
                let w = choose|w: int|
                    0 <= w < after.len() && (#[trigger] after[w]).hovered is Some && after[w].selected
                        is Some;
                if w < i {
                    assert(before[w].hovered is Some && before[w].selected is Some);
                }
            }
            if some_hovered_selected(before) {
                let w = choose|w: int|
                    0 <= w < before.len() && (#[trigger] before[w]).hovered is Some && before[w].selected
                        is Some;
                assert(after[w].hovered is Some && after[w].selected is Some);
            }
            if level.shapes@[i as int].hovered is Some {
                assert(after[i as int].hovered is Some);
            }
        }
        let shape = level.shapes[i];
        if shape.selected.is_some() {
            count = count + 1;
            sum_x = sum_x + shape.body.transform.translation.x as i128;
            sum_y = sum_y + shape.body.transform.translation.y as i128;
        }
        if shape.hovered.is_some() {
            hovered = true;
            if shape.selected.is_some() {
                hovered_selected = true;
            }
        }
        i = i + 1;
    }
    assert(level.shapes@.take(i as int) =~= level.shapes@);
    let center = if count == 0 {
        Vec2::zero()
    } else {
        Vec2 { x: saturate(floor_div(sum_x, count as i128)), y: saturate(floor_div(sum_y, count as i128)) }
    };
    Manipulation {
        single: count == 1,
        center,
        replace: mouse.left.just_pressed && hovered && !hovered_selected,
    }
}

/// Applies the frame's input to the selected shapes.
///
/// With exactly one shape selected, the arrow keys scale it and the turn keys
/// turn it about its own centre. With several selected, the turn keys turn
/// them about the mean of their places. The movement keys move every selected
/// shape, and so does the pointer while the left button is held. A click on a
/// hovered shape that is not selected makes it the selection. The modifier key
/// makes every step finer.
pub fn selection_manipulation(
    level: &mut Level,
    keyboard: &KeyboardInput,
    mouse_input: &MouseInput,
    cursor: &Cursor,
)
    ensures
        final(level).shapes@ == manipulation_after(old(level).shapes@, *keyboard, *mouse_input, *cursor),
{
    let how = survey(level, mouse_input);
    let mut i: usize = 0;
    while i < level.shapes.len()
        invariant
            0 <= i <= level.shapes@.len(),
            level.shapes@.len() == old(level).shapes@.len(),
            how == manipulation_of(old(level).shapes@, *mouse_input),
            forall|k: int|
                0 <= k < i ==> level.shapes@[k] == spec_manipulated(
                    old(level).shapes@[k],
                    how,
                    *keyboard,
                    *mouse_input,
                    *cursor,
                ),
            forall|k: int| i <= k < level.shapes@.len() ==> level.shapes@[k] == old(level).shapes@[k],
        decreases level.shapes@.len() - i,
    {
        let mut shape = level.shapes[i];
        if shape.selected.is_some() {
            shape.body.transform = manipulated_transform(
                shape.body.transform,
                &how,
                keyboard,
                mouse_input,
                cursor,
            );
        }
        if how.replace {
            if shape.hovered.is_some() {
                shape.selected = Some(Selected);
            } else {
                shape.selected = None;
            }
        }
        level.shapes[i] = shape;
        i = i + 1;
    }
    assert(level.shapes@ =~= manipulation_after(old(level).shapes@, *keyboard, *mouse_input, *cursor));
}

} // verus!
