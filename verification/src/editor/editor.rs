//! The editor's own systems: spawning shapes and drawing the marquee.

use vstd::prelude::*;
use crate::editor::color_handler::{color_handler, colors_after, is_stale};
use crate::editor::components::{
    EditorSelectBox, EditorShape, Selected, SelectBoxEntity, ShapeEntity, ShapeType,
};
use crate::editor::hover::{hover_after, hover_shapes};
use crate::editor::selection::{manipulation_after, selection_manipulation};
use crate::game::level::{Level, LevelEntity};
use crate::game::player::spawn::Respawn;
use crate::geometry::{Transform, Vec2};
use crate::input::{KeyboardInput, MouseInput};
use crate::physics::Collider;
use crate::util::{ColorMaterial, Cursor, PreloadedAssets};

verus! {

/// The width and height with which a shape is spawned.
pub const SPAWN_SCALE: i64 = 20_000;

/// A marquee whose width and height add up to less than this is a click.
pub const CLICK_THRESHOLD: i64 = 20_000;

/// Half the side of the marquee's collider before its transform scales it.
pub const SELECT_BOX_HALF_SIDE: i64 = 500;

/// The editor as it is before its first frame.
pub struct EditorPlugin;

impl EditorPlugin {
    /// The state with which the editor begins: the marquee, and a respawn
    /// asked for.
    pub fn build(&self) -> (state: (SelectBoxEntity, Respawn))
        ensures
            state.0 == fresh_select_box(),
            state.1.0,
    {
        (editor_startup(), Respawn(true))
    }

    /// Runs the editor's systems for one frame, in their order: first the
    /// hover mark, then the manipulation of the selection, then the spawn keys
    /// and the marquee, and last the tints, so that no shape keeps a tint that
    /// its state has outgrown.
    ///
    /// `hits` holds the shapes that the engine found under the pointer and
    /// `overlaps` those that it found to overlap the marquee.
    pub fn update(
        &self,
        mouse: &MouseInput,
        keyboard: &KeyboardInput,
        cursor: &Cursor,
        hits: &Vec<usize>,
        overlaps: &Vec<usize>,
        respawn: &mut Respawn,
        select_box: &mut SelectBoxEntity,
        param: &mut SpawnShapeParam,
    )
        requires
            old(param).preload.loaded(),
        ensures
            final(param).preload == old(param).preload,
            final(respawn).0 == (old(respawn).0 || keyboard.k.just_pressed),
            *final(select_box) == select_box_after(*old(select_box), *mouse, *cursor),
            old(param).level.entity is None ==> final(param).level.entity is None,
            old(param).level.entity is Some ==> {
                &&& final(param).level.entity is Some
                &&& final(param).level.entity->0.shapes@ == frame_after(
                    old(param).level.entity->0.shapes@,
                    *old(select_box),
                    *mouse,
                    *keyboard,
                    *cursor,
                    hits@,
                    overlaps@,
                )
            },
    {
        match &mut param.level.entity {
            Some(level) => {
                hover_shapes(level, mouse, cursor, hits);
                selection_manipulation(level, keyboard, mouse, cursor);
            },
            None => {},
        }
        editor(mouse, keyboard, cursor, overlaps, respawn, select_box, param);
        match &mut param.level.entity {
            Some(level) => {
                color_handler(level);
            },
            None => {},
        }
    }
}

/// The shapes after one frame of the editor.
pub open spec fn frame_after(
    shapes: Seq<ShapeEntity>,
    select_box: SelectBoxEntity,
    mouse: MouseInput,
    keyboard: KeyboardInput,
    cursor: Cursor,
    hits: Seq<usize>,
    overlaps: Seq<usize>,
) -> Seq<ShapeEntity> {
    colors_after(
        editor_after(
            manipulation_after(hover_after(shapes, mouse, cursor, hits), keyboard, mouse, cursor),
            select_box,
            mouse,
            keyboard,
            cursor,
            overlaps,
        ),
    )
}

/// After a frame of the editor every shape has the tint of its state.
pub proof fn lemma_frame_leaves_no_stale_tint(
    shapes: Seq<ShapeEntity>,
    select_box: SelectBoxEntity,
    mouse: MouseInput,
    keyboard: KeyboardInput,
    cursor: Cursor,
    hits: Seq<usize>,
    overlaps: Seq<usize>,
    i: int,
)
    requires
        0 <= i < frame_after(shapes, select_box, mouse, keyboard, cursor, hits, overlaps).len(),
        forall|k: int|
            0 <= k < shapes.len() ==> (#[trigger] shapes[k]).material.color
                == shapes[k].painted.spec_get_color(),
    ensures
        ({
            let shape = frame_after(shapes, select_box, mouse, keyboard, cursor, hits, overlaps)[i];
            &&& !is_stale(shape)
            &&& shape.material.color == shape.spec_color_state().spec_get_color()
        }),
{
    let hovered = hover_after(shapes, mouse, cursor, hits);
    let moved = manipulation_after(hovered, keyboard, mouse, cursor);
    let spawned = with_spawns(moved, keyboard, cursor);
    let marked = marquee_after(spawned, select_box, mouse, keyboard, cursor, overlaps);
    assert(forall|k: int|
        0 <= k < hovered.len() ==> (#[trigger] hovered[k]).material.color
            == hovered[k].painted.spec_get_color() && hovered[k].material == shapes[k].material);
    assert(forall|k: int|
        0 <= k < moved.len() ==> (#[trigger] moved[k]).material.color
            == moved[k].painted.spec_get_color());
    assert(forall|k: int|
        0 <= k < spawned.len() ==> (#[trigger] spawned[k]).material.color
            == spawned[k].painted.spec_get_color());
    assert(forall|k: int|
        0 <= k < marked.len() ==> (#[trigger] marked[k]).material.color
            == marked[k].painted.spec_get_color());
}

/// What spawning a shape needs: the shared assets and the level to put it in.
pub struct SpawnShapeParam {
    pub preload: PreloadedAssets,
    pub level: LevelEntity,
}

/// The marquee at startup: at the origin, with a square collider of side one.
pub open spec fn fresh_select_box() -> SelectBoxEntity {
    SelectBoxEntity {
        select_box: EditorSelectBox { start: Vec2::spec_zero() },
        transform: Transform::spec_identity(),
        collider: Collider::Cuboid { hx: SELECT_BOX_HALF_SIDE, hy: SELECT_BOX_HALF_SIDE },
    }
}

/// Makes the marquee.
pub fn editor_startup() -> (r: SelectBoxEntity)
    ensures
        r == fresh_select_box(),
{
    SelectBoxEntity {
        select_box: EditorSelectBox::default(),
        transform: Transform::default(),
        collider: Collider::Cuboid { hx: SELECT_BOX_HALF_SIDE, hy: SELECT_BOX_HALF_SIDE },
    }
}

/// Where a shape is spawned: at the pointer, unturned, `SPAWN_SCALE` wide and high.
pub open spec fn spawn_transform(cursor: Cursor) -> Transform {
    Transform::spec_from_translation(cursor.world_pos).spec_with_scale(
        Vec2 { x: SPAWN_SCALE, y: SPAWN_SCALE },
    )
}

/// The shape that a key spawns: one that the web sticks to, at the pointer.
pub open spec fn spawned_shape(shape_type: ShapeType, cursor: Cursor) -> ShapeEntity {
    let shape = EditorShape { shape_type, stickable: true };
    shape.spec_entity(
        ColorMaterial { color: shape.spec_fresh_state().spec_get_color() },
        spawn_transform(cursor),
    )
}

/// The shapes after the spawn keys have been looked at: a rectangle for the
/// one, then an oval for the other.
pub open spec fn with_spawns(shapes: Seq<ShapeEntity>, keyboard: KeyboardInput, cursor: Cursor) -> Seq<
    ShapeEntity,
> {
    let with_rectangle = if keyboard.r.just_pressed {
        shapes.push(spawned_shape(ShapeType::Rectangle, cursor))
    } else {
        shapes
    };
    if keyboard.c.just_pressed {
        with_rectangle.push(spawned_shape(ShapeType::Oval, cursor))
    } else {
        with_rectangle
    }
}

/// A shape with the selection mark put on.
pub open spec fn selected(shape: ShapeEntity) -> ShapeEntity {
    ShapeEntity { selected: Some(Selected), ..shape }
}

/// A shape with the selection mark taken off.
pub open spec fn deselected(shape: ShapeEntity) -> ShapeEntity {
    ShapeEntity { selected: None, ..shape }
}

/// The shapes when the marquee is begun: the selection is emptied unless the
/// modifier key is down.
pub open spec fn marquee_pressed(shapes: Seq<ShapeEntity>, keep: bool) -> Seq<ShapeEntity> {
    if keep {
        shapes
    } else {
        Seq::new(shapes.len(), |i: int| deselected(shapes[i]))
    }
}

/// The marquee after the frame. A press puts its corner at the pointer and
/// shrinks it to nothing; while the button stays down it spans from its corner
/// to the pointer.
pub open spec fn select_box_after(select_box: SelectBoxEntity, mouse: MouseInput, cursor: Cursor) -> SelectBoxEntity {
    if mouse.right.just_pressed {
        SelectBoxEntity {
            select_box: EditorSelectBox { start: cursor.world_pos },
            transform: Transform { scale: Vec2 { x: 0, y: 0 }, ..select_box.transform },
            ..select_box
        }
    } else if mouse.right.pressed {
        SelectBoxEntity {
            transform: Transform {
                translation: select_box.select_box.start.spec_midpoint(cursor.world_pos),
                scale: select_box.select_box.start.spec_minus(cursor.world_pos).spec_abs(),
                ..select_box.transform
            },
            ..select_box
        }
    } else {
        select_box
    }
}

/// Whether a marquee from `start` to the pointer is too small to be a drag.
pub open spec fn spec_is_click(start: Vec2, cursor: Cursor) -> bool {
    start.spec_minus(cursor.world_pos).spec_abs().x + start.spec_minus(cursor.world_pos).spec_abs().y
        < CLICK_THRESHOLD
}

/// Whether a marquee from `start` to the pointer is too small to be a drag.
pub fn is_click(start: Vec2, cursor: &Cursor) -> (r: bool)
    ensures
        r == spec_is_click(start, *cursor),
{
    let size = start.minus(cursor.world_pos).abs();
    size.x as i128 + (size.y as i128) < CLICK_THRESHOLD as i128
}

/// Whether the engine reported the shape at place `i`.
pub open spec fn lists(overlaps: Seq<usize>, i: int) -> bool {
    exists|k: int| 0 <= k < overlaps.len() && #[trigger] overlaps[k] == i
}

/// The shapes with every hovered one selected.
pub open spec fn hovered_selected(shapes: Seq<ShapeEntity>) -> Seq<ShapeEntity> {
    Seq::new(
        shapes.len(),
        |i: int|
            if shapes[i].hovered is Some {
                selected(shapes[i])
            } else {
                shapes[i]
            },
    )
}

/// The shapes with every one selected that the marquee can pick up and that
/// the engine reported as overlapping it.
pub open spec fn overlapping_selected(shapes: Seq<ShapeEntity>, overlaps: Seq<usize>) -> Seq<ShapeEntity> {
    Seq::new(
        shapes.len(),
        |i: int|
            if lists(overlaps, i) && shapes[i].selectable is Some {
                selected(shapes[i])
            } else {
                shapes[i]
            },
    )
}

/// The shapes when the marquee is let go: a click selects what is hovered, a
/// drag what overlaps the marquee.
pub open spec fn marquee_released(
    shapes: Seq<ShapeEntity>,
    start: Vec2,
    cursor: Cursor,
    overlaps: Seq<usize>,
) -> Seq<ShapeEntity> {
    if spec_is_click(start, cursor) {
        hovered_selected(shapes)
    } else {
        overlapping_selected(shapes, overlaps)
    }
}

/// The shapes after the marquee's part of the frame.
pub open spec fn marquee_after(
    shapes: Seq<ShapeEntity>,
    select_box: SelectBoxEntity,
    mouse: MouseInput,
    keyboard: KeyboardInput,
    cursor: Cursor,
    overlaps: Seq<usize>,
) -> Seq<ShapeEntity> {
    let pressed = if mouse.right.just_pressed {
        marquee_pressed(shapes, keyboard.l_shift.pressed)
    } else {
        shapes
    };
    if mouse.right.just_released {
        marquee_released(
            pressed,
            select_box_after(select_box, mouse, cursor).select_box.start,
            cursor,
            overlaps,
        )
    } else {
        pressed
    }
}

/// The shapes after the editor's frame: first the spawn keys, then the marquee.
pub open spec fn editor_after(
    shapes: Seq<ShapeEntity>,
    select_box: SelectBoxEntity,
    mouse: MouseInput,
    keyboard: KeyboardInput,
    cursor: Cursor,
    overlaps: Seq<usize>,
) -> Seq<ShapeEntity> {
    marquee_after(with_spawns(shapes, keyboard, cursor), select_box, mouse, keyboard, cursor, overlaps)
}

/// Takes the selection mark off every shape.
fn deselect_all(level: &mut Level)
    ensures
        final(level).shapes@ == marquee_pressed(old(level).shapes@, false),
{
    let mut i: usize = 0;
    while i < level.shapes.len()
        invariant
            0 <= i <= level.shapes@.len(),
            level.shapes@.len() == old(level).shapes@.len(),
            forall|k: int| 0 <= k < i ==> level.shapes@[k] == deselected(old(level).shapes@[k]),
            forall|k: int| i <= k < level.shapes@.len() ==> level.shapes@[k] == old(level).shapes@[k],
        decreases level.shapes@.len() - i,
    {
        let mut shape = level.shapes[i];
        shape.selected = None;
        level.shapes[i] = shape;
        i = i + 1;
    }
    assert(level.shapes@ =~= marquee_pressed(old(level).shapes@, false));
}

/// Selects every hovered shape.
fn select_hovered(level: &mut Level)
    ensures
        final(level).shapes@ == hovered_selected(old(level).shapes@),
{
    let mut i: usize = 0;
    while i < level.shapes.len()
        invariant
            0 <= i <= level.shapes@.len(),
            level.shapes@.len() == old(level).shapes@.len(),
            forall|k: int| 0 <= k < i ==> level.shapes@[k] == hovered_selected(old(level).shapes@)[k],
            forall|k: int| i <= k < level.shapes@.len() ==> level.shapes@[k] == old(level).shapes@[k],
        decreases level.shapes@.len() - i,
    {
        let mut shape = level.shapes[i];
        if shape.hovered.is_some() {
            shape.selected = Some(Selected);
        }
        level.shapes[i] = shape;
        i = i + 1;
    }
    assert(level.shapes@ =~= hovered_selected(old(level).shapes@));
}

/// One more report adds one shape to those reported.
proof fn lemma_lists_step(overlaps: Seq<usize>, k: int, i: int)
    requires
        0 <= k < overlaps.len(),
    ensures
        lists(overlaps.take(k + 1), i) <==> lists(overlaps.take(k), i) || overlaps[k] == i,
{
    let longer = overlaps.take(k + 1);
    let shorter = overlaps.take(k);
    if lists(longer, i) {
        let w = choose|w: int| 0 <= w < longer.len() && #[trigger] longer[w] == i;
        if w < k {
            assert(shorter[w] == i);
        }
    }
    if lists(shorter, i) {
        let w = choose|w: int| 0 <= w < shorter.len() && #[trigger] shorter[w] == i;
        assert(longer[w] == i);
    }
    if overlaps[k] == i {
        assert(longer[k] == i);
    }
}

/// Selects every shape that the marquee can pick up and that overlaps it.
fn select_overlapping(level: &mut Level, overlaps: &Vec<usize>)
    ensures
        final(level).shapes@ == overlapping_selected(old(level).shapes@, overlaps@),
{
    let mut k: usize = 0;
    while k < overlaps.len()
        invariant
            0 <= k <= overlaps@.len(),
            level.shapes@.len() == old(level).shapes@.len(),
            level.shapes@ == overlapping_selected(old(level).shapes@, overlaps@.take(k as int)),
        decreases overlaps@.len() - k,
    {
        let ghost before = level.shapes@;
        let selected = overlaps[k];
        if selected < level.shapes.len() {
            let mut shape = level.shapes[selected];
            if shape.selectable.is_some() {
                shape.selected = Some(Selected);
                level.shapes[selected] = shape;
            }
        }
        proof {
            assert forall|i: int| 0 <= i < level.shapes@.len() implies level.shapes@[i]
                == overlapping_selected(old(level).shapes@, overlaps@.take(k + 1))[i] by {
                lemma_lists_step(overlaps@, k as int, i);
            }
            assert(level.shapes@ =~= overlapping_selected(old(level).shapes@, overlaps@.take(k + 1)));
        }
        k = k + 1;
    }
    assert(overlaps@.take(k as int) =~= overlaps@);
}

/// Runs the editor for one frame.
///
/// The spawn keys put a rectangle or an oval at the pointer, the respawn key
/// asks for a respawn, and the right button draws the marquee. `overlaps`
/// holds the places of the shapes that the engine found to overlap the
/// marquee. Without a level there are no shapes to spawn or to select.
pub fn editor(
    mouse_button_input: &MouseInput,
    keyboard_input: &KeyboardInput,
    cursor: &Cursor,
    overlaps: &Vec<usize>,
    respawn: &mut Respawn,
    select_box: &mut SelectBoxEntity,
    spawn_shape_param: &mut SpawnShapeParam,
)
    requires
        old(spawn_shape_param).preload.loaded(),
    ensures
        final(spawn_shape_param).preload == old(spawn_shape_param).preload,
        final(respawn).0 == (old(respawn).0 || keyboard_input.k.just_pressed),
        *final(select_box) == select_box_after(*old(select_box), *mouse_button_input, *cursor),
        old(spawn_shape_param).level.entity is None ==> final(spawn_shape_param).level.entity is None,
        old(spawn_shape_param).level.entity is Some ==> final(spawn_shape_param).level.entity is Some
            && final(spawn_shape_param).level.entity->0.shapes@ == editor_after(
            old(spawn_shape_param).level.entity->0.shapes@,
            *old(select_box),
            *mouse_button_input,
            *keyboard_input,
            *cursor,
            overlaps@,
        ),
{
    if spawn_shape_param.level.entity.is_some() {
        if keyboard_input.r.just_pressed {
            let shape = EditorShape { shape_type: ShapeType::Rectangle, stickable: true };
            shape.spawn(
                spawn_shape_param,
                &Transform::from_translation(cursor.world_pos).with_scale(
                    Vec2 { x: SPAWN_SCALE, y: SPAWN_SCALE },
                ),
            );
        }
        if keyboard_input.c.just_pressed {
            let shape = EditorShape { shape_type: ShapeType::Oval, stickable: true };
            shape.spawn(
                spawn_shape_param,
                &Transform::from_translation(cursor.world_pos).with_scale(
                    Vec2 { x: SPAWN_SCALE, y: SPAWN_SCALE },
                ),
            );
        }
    }
    if keyboard_input.k.just_pressed {
        *respawn = Respawn(true);
    }
    if mouse_button_input.right.just_pressed {
        if !keyboard_input.l_shift.pressed {
            match &mut spawn_shape_param.level.entity {
                Some(level) => {
                    deselect_all(level);
                },
                None => {},
            }
        }
        select_box.select_box.start = cursor.world_pos;
        select_box.transform.scale = Vec2 { x: 0, y: 0 };
    } else if mouse_button_input.right.pressed {
        select_box.transform.translation = select_box.select_box.start.midpoint(cursor.world_pos);
        select_box.transform.scale = select_box.select_box.start.minus(cursor.world_pos).abs();
    }
    if mouse_button_input.right.just_released {
        let click = is_click(select_box.select_box.start, cursor);
        match &mut spawn_shape_param.level.entity {
            Some(level) => {
                if click {
                    select_hovered(level);
                } else {
                    select_overlapping(level, overlaps);
                }
            },
            None => {},
        }
    }
}

/// A marquee begun without the modifier key leaves no shape selected.
pub proof fn lemma_marquee_press_clears(shapes: Seq<ShapeEntity>, i: int)
    requires
        0 <= i < shapes.len(),
    ensures
        marquee_pressed(shapes, false).len() == shapes.len(),
        marquee_pressed(shapes, false)[i].selected is None,
        marquee_pressed(shapes, false)[i] == deselected(shapes[i]),
{
}

/// A marquee that is let go where it began is a click. It selects the hovered
/// shape and changes nothing else: where the selection was empty, as it is
/// after a press without the modifier key, exactly the hovered shape is
/// selected, and no shape at all where none is hovered.
pub proof fn lemma_click_selects_hovered(
    shapes: Seq<ShapeEntity>,
    start: Vec2,
    cursor: Cursor,
    overlaps: Seq<usize>,
    i: int,
)
    requires
        spec_is_click(start, cursor),
        0 <= i < shapes.len(),
    ensures
        marquee_released(shapes, start, cursor, overlaps).len() == shapes.len(),
        marquee_released(shapes, start, cursor, overlaps)[i].selected is Some <==> shapes[i].selected
            is Some || shapes[i].hovered is Some,
        marquee_released(marquee_pressed(shapes, false), start, cursor, overlaps)[i].selected is Some
            <==> shapes[i].hovered is Some,
        marquee_released(shapes, start, cursor, overlaps)[i] == if shapes[i].hovered is Some {
            selected(shapes[i])
        } else {
            shapes[i]
        },
{
}

/// A marquee that began at the pointer's place is a click.
pub proof fn lemma_no_drag_is_click(cursor: Cursor)
    ensures
        spec_is_click(cursor.world_pos, cursor),
{
}

/// A marquee that is let go after a drag selects every shape that overlaps it
/// and that it can pick up, and changes nothing else.
pub proof fn lemma_drag_selects_overlapping(
    shapes: Seq<ShapeEntity>,
    start: Vec2,
    cursor: Cursor,
    overlaps: Seq<usize>,
    i: int,
)
    requires
        !spec_is_click(start, cursor),
        0 <= i < shapes.len(),
    ensures
        marquee_released(shapes, start, cursor, overlaps).len() == shapes.len(),
        lists(overlaps, i) && shapes[i].selectable is Some ==> marquee_released(
            shapes,
            start,
            cursor,
            overlaps,
        )[i] == selected(shapes[i]),
        !(lists(overlaps, i) && shapes[i].selectable is Some) ==> marquee_released(
            shapes,
            start,
            cursor,
            overlaps,
        )[i] == shapes[i],
{
}

/// The marquee changes the selection only in the frames in which its own
/// button goes down or comes up: dragging the selection with the left button
/// never selects anything anew.
pub proof fn lemma_marquee_needs_its_button(
    shapes: Seq<ShapeEntity>,
    select_box: SelectBoxEntity,
    mouse: MouseInput,
    keyboard: KeyboardInput,
    cursor: Cursor,
    overlaps: Seq<usize>,
)
    requires
        !mouse.right.just_pressed,
        !mouse.right.just_released,
    ensures
        marquee_after(shapes, select_box, mouse, keyboard, cursor, overlaps) == shapes,
        !mouse.right.pressed ==> select_box_after(select_box, mouse, cursor) == select_box,
{
}

/// Whether at most one shape is hovered.
pub open spec fn one_hovered(shapes: Seq<ShapeEntity>) -> bool {
    forall|i: int, j: int|
        0 <= i < shapes.len() && 0 <= j < shapes.len() && (#[trigger] shapes[i]).hovered is Some && (
        #[trigger] shapes[j]).hovered is Some ==> i == j
}

/// Moving the hover mark leaves at most one shape hovered and no selection
/// mark touched.
pub proof fn lemma_hover_is_single(shapes: Seq<ShapeEntity>, mouse: MouseInput, cursor: Cursor, hits: Seq<usize>)
    requires
        one_hovered(shapes),
    ensures
        one_hovered(hover_after(shapes, mouse, cursor, hits)),
        hover_after(shapes, mouse, cursor, hits).len() == shapes.len(),
        forall|i: int|
            0 <= i < shapes.len() ==> (#[trigger] hover_after(shapes, mouse, cursor, hits)[i]).selected
                == shapes[i].selected,
{
}

/// Manipulating the selection touches no hover mark.
pub proof fn lemma_manipulation_keeps_hover(
    shapes: Seq<ShapeEntity>,
    keyboard: KeyboardInput,
    mouse: MouseInput,
    cursor: Cursor,
)
    ensures
        manipulation_after(shapes, keyboard, mouse, cursor).len() == shapes.len(),
        forall|i: int|
            0 <= i < shapes.len() ==> (#[trigger] manipulation_after(
                shapes,
                keyboard,
                mouse,
                cursor,
            )[i]).hovered == shapes[i].hovered,
        one_hovered(shapes) ==> one_hovered(manipulation_after(shapes, keyboard, mouse, cursor)),
{
    let after = manipulation_after(shapes, keyboard, mouse, cursor);
    assert forall|i: int| 0 <= i < shapes.len() implies (#[trigger] after[i]).hovered
        == shapes[i].hovered by {}
}

/// The spawn keys and the marquee touch no hover mark, and what they spawn is
/// not hovered.
pub proof fn lemma_editor_keeps_hover(
    shapes: Seq<ShapeEntity>,
    select_box: SelectBoxEntity,
    mouse: MouseInput,
    keyboard: KeyboardInput,
    cursor: Cursor,
    overlaps: Seq<usize>,
)
    ensures
        editor_after(shapes, select_box, mouse, keyboard, cursor, overlaps).len() >= shapes.len(),
        forall|i: int|
            0 <= i < shapes.len() ==> (#[trigger] editor_after(
                shapes,
                select_box,
                mouse,
                keyboard,
                cursor,
                overlaps,
            )[i]).hovered == shapes[i].hovered,
        forall|i: int|
            shapes.len() <= i < editor_after(shapes, select_box, mouse, keyboard, cursor, overlaps).len()
                ==> (#[trigger] editor_after(
                shapes,
                select_box,
                mouse,
                keyboard,
                cursor,
                overlaps,
            )[i]).hovered is None,
        one_hovered(shapes) ==> one_hovered(
            editor_after(shapes, select_box, mouse, keyboard, cursor, overlaps),
        ),
{
    let spawned = with_spawns(shapes, keyboard, cursor);
    let after = editor_after(shapes, select_box, mouse, keyboard, cursor, overlaps);
    assert(after.len() == spawned.len());
    assert forall|i: int| 0 <= i < spawned.len() implies (#[trigger] after[i]).hovered
        == spawned[i].hovered by {}
    assert forall|i: int| 0 <= i < shapes.len() implies (#[trigger] spawned[i]).hovered
        == shapes[i].hovered by {}
    assert forall|i: int| shapes.len() <= i < spawned.len() implies (#[trigger] spawned[i]).hovered
        is None by {}
}

/// Painting touches no hover mark.
pub proof fn lemma_colors_keep_hover(shapes: Seq<ShapeEntity>)
    ensures
        colors_after(shapes).len() == shapes.len(),
        forall|i: int|
            0 <= i < shapes.len() ==> (#[trigger] colors_after(shapes)[i]).hovered == shapes[i].hovered,
        one_hovered(shapes) ==> one_hovered(colors_after(shapes)),
{
}

/// A frame of the editor leaves at most one shape hovered, if at most one was
/// hovered before it.
pub proof fn lemma_frame_keeps_one_hovered(
    shapes: Seq<ShapeEntity>,
    select_box: SelectBoxEntity,
    mouse: MouseInput,
    keyboard: KeyboardInput,
    cursor: Cursor,
    hits: Seq<usize>,
    overlaps: Seq<usize>,
)
    requires
        one_hovered(shapes),
    ensures
        one_hovered(frame_after(shapes, select_box, mouse, keyboard, cursor, hits, overlaps)),
{
    let hovered = hover_after(shapes, mouse, cursor, hits);
    lemma_hover_is_single(shapes, mouse, cursor, hits);
    let moved = manipulation_after(hovered, keyboard, mouse, cursor);
    lemma_manipulation_keeps_hover(hovered, keyboard, mouse, cursor);
    let marked = editor_after(moved, select_box, mouse, keyboard, cursor, overlaps);
    lemma_editor_keeps_hover(moved, select_box, mouse, keyboard, cursor, overlaps);
    lemma_colors_keep_hover(marked);
}

} // verus!
