use webslinger::editor::camera::{camera_movement, Camera};
use webslinger::editor::color_handler::{applies, changed_shapes, color_handler, ColorStateChange};
use webslinger::editor::components::{
    EditorSelectBox, EditorShape, Hovered, Selectable, Selected, ShapeEntity, ShapeType,
};
use webslinger::editor::editor::{editor, editor_startup, is_click, EditorPlugin, SpawnShapeParam};
use webslinger::editor::hover::{hover_shapes, topmost};
use webslinger::editor::selection::selection_manipulation;
use webslinger::game::level::{level_startup, Level, LevelEntity};
use webslinger::game::player::spawn::Respawn;
use webslinger::geometry::{Direction, Transform, Vec2};
use webslinger::input::{ButtonState, KeyboardInput, MouseInput};
use webslinger::physics::{Collider, CollisionGroups, RigidBody};
use webslinger::util::{preload_assets, Color, Cursor, MeshKey, PreloadedAssets};

const PRESS: ButtonState = ButtonState { pressed: true, just_pressed: true, just_released: false };
const HOLD: ButtonState = ButtonState { pressed: true, just_pressed: false, just_released: false };
const RELEASE: ButtonState = ButtonState { pressed: false, just_pressed: false, just_released: true };

fn param() -> SpawnShapeParam {
    let mut preload = PreloadedAssets::new();
    preload_assets(&mut preload);
    let mut level = LevelEntity { entity: None };
    level_startup(&mut level);
    SpawnShapeParam { preload, level }
}

/// A level of `n` rectangles, the one at place `i` at `(100 * i, 0)` pixels.
fn level_of(n: usize) -> SpawnShapeParam {
    let mut param = param();
    for i in 0..n {
        EditorShape::new(ShapeType::Rectangle, true).spawn(
            &mut param,
            &Transform::from_translation(Vec2::new(100_000 * i as i64, 0))
                .with_scale(Vec2::new(20_000, 20_000)),
        );
    }
    param
}

fn shapes(param: &SpawnShapeParam) -> &Vec<ShapeEntity> {
    &param.level.entity.as_ref().unwrap().shapes
}

fn level(param: &mut SpawnShapeParam) -> &mut Level {
    param.level.entity.as_mut().unwrap()
}

fn cursor_at(x: i64, y: i64) -> Cursor {
    let mut cursor = Cursor::new();
    cursor.world_pos = Vec2::new(x, y);
    cursor.moved = true;
    cursor
}

fn selection(param: &SpawnShapeParam) -> Vec<bool> {
    shapes(param).iter().map(|s| s.selected.is_some()).collect()
}

fn hover(param: &SpawnShapeParam) -> Vec<bool> {
    shapes(param).iter().map(|s| s.hovered.is_some()).collect()
}

#[test]
fn spawned_shape_is_a_fixed_selectable_body_in_the_levels_group() {
    let mut param = param();
    let at = Transform::from_translation(Vec2::new(50_000, -20_000)).with_scale(Vec2::new(40_000, 40_000));
    EditorShape::new(ShapeType::Rectangle, true).spawn(&mut param, &at);
    EditorShape::new(ShapeType::Oval, false).spawn(&mut param, &at);
    let rectangle = shapes(&param)[0];
    let oval = shapes(&param)[1];

    assert_eq!(rectangle.shape, EditorShape { shape_type: ShapeType::Rectangle, stickable: true });
    assert_eq!(rectangle.body.transform, at);
    assert_eq!(rectangle.body.depth, 1000);
    assert_eq!(rectangle.body.collider, Collider::Cuboid { hx: 1000, hy: 1000 });
    assert_eq!(rectangle.body.rigid_body, RigidBody::Fixed);
    assert_eq!(rectangle.body.friction, Some(100));
    assert_eq!(rectangle.body.restitution, Some(400));
    assert_eq!(rectangle.body.groups, CollisionGroups::new(1, 254));
    assert!(rectangle.body.joint.is_none());
    assert_eq!(rectangle.mesh, MeshKey::Box2);
    assert_eq!(rectangle.material.color, Color::grey(50));
    assert_eq!(rectangle.selectable, Some(Selectable));
    assert!(rectangle.selected.is_none());
    assert!(rectangle.hovered.is_none());

    assert_eq!(oval.body.collider, Collider::Ball { radius: 1000 });
    assert_eq!(oval.mesh, MeshKey::Circle1);
    assert_eq!(oval.material.color, Color::grey(25));
    assert_eq!(oval.shape.stickable, false);
}

#[test]
fn editor_begins_with_the_marquee_and_a_respawn_asked_for() {
    let (select_box, respawn) = EditorPlugin.build();
    assert_eq!(select_box, editor_startup());
    assert_eq!(select_box.select_box, EditorSelectBox::default());
    assert_eq!(select_box.select_box.start, Vec2::new(0, 0));
    assert_eq!(select_box.transform, Transform::identity());
    assert_eq!(select_box.collider, Collider::Cuboid { hx: 500, hy: 500 });
    assert_eq!(respawn, Respawn(true));
}

#[test]
fn spawn_keys_put_a_rectangle_then_an_oval_at_the_pointer() {
    let mut param = param();
    let (mut select_box, _) = EditorPlugin.build();
    let mut respawn = Respawn(false);
    let mut keyboard = KeyboardInput::idle();
    keyboard.r = PRESS;
    keyboard.c = PRESS;
    let cursor = cursor_at(70_000, 80_000);
    editor(&MouseInput::idle(), &keyboard, &cursor, &vec![], &mut respawn, &mut select_box, &mut param);
    assert_eq!(shapes(&param).len(), 2);
    let want = Transform::from_translation(Vec2::new(70_000, 80_000)).with_scale(Vec2::new(20_000, 20_000));
    assert_eq!(shapes(&param)[0].shape, EditorShape::new(ShapeType::Rectangle, true));
    assert_eq!(shapes(&param)[0].body.transform, want);
    assert_eq!(shapes(&param)[1].shape, EditorShape::new(ShapeType::Oval, true));
    assert_eq!(shapes(&param)[1].body.transform, want);
    assert_eq!(respawn, Respawn(false));

    // A held key spawns nothing more.
    keyboard.r = HOLD;
    keyboard.c = HOLD;
    editor(&MouseInput::idle(), &keyboard, &cursor, &vec![], &mut respawn, &mut select_box, &mut param);
    assert_eq!(shapes(&param).len(), 2);
}

#[test]
fn respawn_key_asks_for_a_respawn() {
    let mut param = param();
    let (mut select_box, _) = EditorPlugin.build();
    let mut respawn = Respawn(false);
    let mut keyboard = KeyboardInput::idle();
    keyboard.k = PRESS;
    editor(&MouseInput::idle(), &keyboard, &cursor_at(0, 0), &vec![], &mut respawn, &mut select_box, &mut param);
    assert_eq!(respawn, Respawn(true));
    assert_eq!(shapes(&param).len(), 0);
}

#[test]
fn hover_marks_the_last_shape_reported_and_no_other() {
    let mut param = level_of(4);
    let cursor = cursor_at(0, 0);
    hover_shapes(level(&mut param), &MouseInput::idle(), &cursor, &vec![1, 3, 2]);
    assert_eq!(hover(&param), vec![false, false, true, false]);
    hover_shapes(level(&mut param), &MouseInput::idle(), &cursor, &vec![0]);
    assert_eq!(hover(&param), vec![true, false, false, false]);
    hover_shapes(level(&mut param), &MouseInput::idle(), &cursor, &vec![]);
    assert_eq!(hover(&param), vec![false, false, false, false]);
    assert_eq!(topmost(&vec![4, 9]), Some(9));
    assert_eq!(topmost(&vec![]), None);
}

#[test]
fn hover_stays_while_the_pointer_rests_or_the_marquee_is_drawn() {
    let mut param = level_of(3);
    hover_shapes(level(&mut param), &MouseInput::idle(), &cursor_at(0, 0), &vec![1]);
    let mut resting = cursor_at(0, 0);
    resting.moved = false;
    hover_shapes(level(&mut param), &MouseInput::idle(), &resting, &vec![2]);
    assert_eq!(hover(&param), vec![false, true, false]);
    let mut mouse = MouseInput::idle();
    mouse.right = HOLD;
    hover_shapes(level(&mut param), &mouse, &cursor_at(0, 0), &vec![2]);
    assert_eq!(hover(&param), vec![false, true, false]);
    mouse.right = PRESS;
    hover_shapes(level(&mut param), &mouse, &cursor_at(0, 0), &vec![2]);
    assert_eq!(hover(&param), vec![false, true, false]);
    // The other buttons do not hold it, nor does the frame of letting go.
    mouse.right = RELEASE;
    mouse.left = HOLD;
    mouse.middle = HOLD;
    hover_shapes(level(&mut param), &mouse, &cursor_at(0, 0), &vec![2]);
    assert_eq!(hover(&param), vec![false, false, true]);
}

#[test]
fn hover_and_selection_are_independent() {
    let mut param = level_of(2);
    level(&mut param).shapes[0].selected = Some(Selected);
    hover_shapes(level(&mut param), &MouseInput::idle(), &cursor_at(0, 0), &vec![0]);
    assert_eq!(hover(&param), vec![true, false]);
    assert_eq!(selection(&param), vec![true, false]);
    hover_shapes(level(&mut param), &MouseInput::idle(), &cursor_at(0, 0), &vec![1]);
    assert_eq!(hover(&param), vec![false, true]);
    assert_eq!(selection(&param), vec![true, false]);
}

fn marquee(param: &mut SpawnShapeParam, from: (i64, i64), to: (i64, i64), shift: bool, overlaps: Vec<usize>) {
    let (mut select_box, _) = EditorPlugin.build();
    let mut respawn = Respawn(false);
    let mut keyboard = KeyboardInput::idle();
    if shift {
        keyboard.l_shift = HOLD;
    }
    let mut mouse = MouseInput::idle();
    mouse.right = PRESS;
    editor(&mouse, &keyboard, &cursor_at(from.0, from.1), &vec![], &mut respawn, &mut select_box, param);
    assert_eq!(select_box.select_box.start, Vec2::new(from.0, from.1));
    assert_eq!(select_box.transform.scale, Vec2::new(0, 0));
    mouse.right = HOLD;
    editor(&mouse, &keyboard, &cursor_at(to.0, to.1), &vec![], &mut respawn, &mut select_box, param);
    assert_eq!(
        select_box.transform.translation,
        Vec2::new((from.0 + to.0).div_euclid(2), (from.1 + to.1).div_euclid(2))
    );
    assert_eq!(select_box.transform.scale, Vec2::new((from.0 - to.0).abs(), (from.1 - to.1).abs()));
    mouse.right = RELEASE;
    editor(&mouse, &keyboard, &cursor_at(to.0, to.1), &overlaps, &mut respawn, &mut select_box, param);
}

#[test]
fn click_selects_the_hovered_shape_only() {
    let mut param = level_of(3);
    level(&mut param).shapes[0].selected = Some(Selected);
    level(&mut param).shapes[2].hovered = Some(Hovered);
    // The engine's overlaps do not count for a click.
    marquee(&mut param, (10_000, 10_000), (10_000, 10_000), false, vec![0, 1]);
    assert_eq!(selection(&param), vec![false, false, true]);
}

#[test]
fn click_on_nothing_clears_the_selection() {
    let mut param = level_of(3);
    level(&mut param).shapes[0].selected = Some(Selected);
    level(&mut param).shapes[1].selected = Some(Selected);
    marquee(&mut param, (10_000, 10_000), (12_000, 5_000), false, vec![0, 1, 2]);
    assert_eq!(selection(&param), vec![false, false, false]);
}

#[test]
fn click_with_the_modifier_adds_the_hovered_shape() {
    let mut param = level_of(3);
    level(&mut param).shapes[0].selected = Some(Selected);
    level(&mut param).shapes[2].hovered = Some(Hovered);
    marquee(&mut param, (0, 0), (0, 0), true, vec![]);
    assert_eq!(selection(&param), vec![true, false, true]);
}

#[test]
fn drag_selects_every_selectable_shape_that_overlaps() {
    let mut param = level_of(5);
    level(&mut param).shapes[3].selectable = None;
    level(&mut param).shapes[4].hovered = Some(Hovered);
    level(&mut param).shapes[1].selected = Some(Selected);
    // The engine may report a shape twice, and things that are no shapes.
    marquee(&mut param, (-50_000, -50_000), (250_000, 50_000), false, vec![2, 0, 3, 2, 17]);
    assert_eq!(selection(&param), vec![true, false, true, false, false]);
}

#[test]
fn drag_with_the_modifier_keeps_the_selection() {
    let mut param = level_of(3);
    level(&mut param).shapes[1].selected = Some(Selected);
    marquee(&mut param, (0, 0), (300_000, 300_000), true, vec![2]);
    assert_eq!(selection(&param), vec![false, true, true]);
}

#[test]
fn marquee_is_a_click_below_twenty_pixels_of_width_and_height_together() {
    let start = Vec2::new(100_000, 100_000);
    assert!(is_click(start, &cursor_at(100_000, 100_000)));
    assert!(is_click(start, &cursor_at(110_000, 109_999)));
    assert!(is_click(start, &cursor_at(80_001, 100_000)));
    assert!(!is_click(start, &cursor_at(110_000, 110_000)));
    assert!(!is_click(start, &cursor_at(100_000, 80_000)));
    assert!(!is_click(start, &cursor_at(90_000, 110_000)));
}

#[test]
fn editor_without_a_level_still_draws_the_marquee() {
    let mut preload = PreloadedAssets::new();
    preload_assets(&mut preload);
    let mut param = SpawnShapeParam { preload, level: LevelEntity { entity: None } };
    let (mut select_box, _) = EditorPlugin.build();
    let mut respawn = Respawn(false);
    let mut keyboard = KeyboardInput::idle();
    keyboard.r = PRESS;
    let mut mouse = MouseInput::idle();
    mouse.right = PRESS;
    editor(&mouse, &keyboard, &cursor_at(5, 6), &vec![0], &mut respawn, &mut select_box, &mut param);
    assert!(param.level.entity.is_none());
    assert_eq!(select_box.select_box.start, Vec2::new(5, 6));
}

fn select(param: &mut SpawnShapeParam, places: &[usize]) {
    for &i in places {
        level(param).shapes[i].selected = Some(Selected);
    }
}

fn transform_of(param: &SpawnShapeParam, i: usize) -> Transform {
    shapes(param)[i].body.transform
}

#[test]
fn arrow_keys_scale_the_one_selected_shape() {
    let mut param = level_of(2);
    select(&mut param, &[1]);
    let mut keyboard = KeyboardInput::idle();
    keyboard.up = HOLD;
    keyboard.left = HOLD;
    selection_manipulation(level(&mut param), &keyboard, &MouseInput::idle(), &Cursor::new());
    assert_eq!(transform_of(&param, 1).scale, Vec2::new(19_000, 21_000));
    assert_eq!(transform_of(&param, 0).scale, Vec2::new(20_000, 20_000));
    keyboard = KeyboardInput::idle();
    keyboard.down = HOLD;
    keyboard.right = HOLD;
    keyboard.l_shift = HOLD;
    selection_manipulation(level(&mut param), &keyboard, &MouseInput::idle(), &Cursor::new());
    assert_eq!(transform_of(&param, 1).scale, Vec2::new(19_200, 20_800));
    // Opposite keys cancel.
    keyboard.up = HOLD;
    keyboard.left = HOLD;
    selection_manipulation(level(&mut param), &keyboard, &MouseInput::idle(), &Cursor::new());
    assert_eq!(transform_of(&param, 1).scale, Vec2::new(19_200, 20_800));
    assert_eq!(transform_of(&param, 1).translation, Vec2::new(100_000, 0));
}

#[test]
fn arrow_keys_do_not_scale_several_selected_shapes() {
    let mut param = level_of(2);
    select(&mut param, &[0, 1]);
    let mut keyboard = KeyboardInput::idle();
    keyboard.up = HOLD;
    selection_manipulation(level(&mut param), &keyboard, &MouseInput::idle(), &Cursor::new());
    assert_eq!(transform_of(&param, 0).scale, Vec2::new(20_000, 20_000));
    assert_eq!(transform_of(&param, 1).scale, Vec2::new(20_000, 20_000));
}

#[test]
fn turn_keys_turn_the_one_selected_shape_about_itself() {
    let mut param = level_of(2);
    select(&mut param, &[1]);
    let mut keyboard = KeyboardInput::idle();
    keyboard.q = HOLD;
    selection_manipulation(level(&mut param), &keyboard, &MouseInput::idle(), &Cursor::new());
    assert_eq!(transform_of(&param, 1).rotation, Direction::new(998_750, 49_979));
    assert_eq!(transform_of(&param, 1).translation, Vec2::new(100_000, 0));
    assert_eq!(transform_of(&param, 0).rotation, Direction::new(1_000_000, 0));

    let mut param = level_of(1);
    select(&mut param, &[0]);
    keyboard = KeyboardInput::idle();
    keyboard.e = HOLD;
    keyboard.l_shift = HOLD;
    selection_manipulation(level(&mut param), &keyboard, &MouseInput::idle(), &Cursor::new());
    assert_eq!(transform_of(&param, 0).rotation, Direction::new(999_950, -10_000));
}

#[test]
fn turn_keys_turn_several_selected_shapes_about_their_centre() {
    let mut param = level_of(3);
    select(&mut param, &[0, 1]);
    let mut keyboard = KeyboardInput::idle();
    keyboard.q = HOLD;
    selection_manipulation(level(&mut param), &keyboard, &MouseInput::idle(), &Cursor::new());
    // About (50, 0) pixels by a twentieth of a radian to the left.
    assert_eq!(transform_of(&param, 0).translation, Vec2::new(62, -2_499));
    assert_eq!(transform_of(&param, 1).translation, Vec2::new(99_937, 2_498));
    assert_eq!(transform_of(&param, 0).rotation, Direction::new(998_750, 49_979));
    assert_eq!(transform_of(&param, 1).rotation, Direction::new(998_750, 49_979));
    assert_eq!(transform_of(&param, 2), level_of(3).level.entity.unwrap().shapes[2].body.transform);
}

#[test]
fn movement_keys_move_every_selected_shape_by_two_steps() {
    let mut param = level_of(3);
    select(&mut param, &[0, 2]);
    let mut keyboard = KeyboardInput::idle();
    keyboard.w = PRESS;
    keyboard.d = PRESS;
    selection_manipulation(level(&mut param), &keyboard, &MouseInput::idle(), &Cursor::new());
    assert_eq!(transform_of(&param, 0).translation, Vec2::new(2_000, 2_000));
    assert_eq!(transform_of(&param, 1).translation, Vec2::new(100_000, 0));
    assert_eq!(transform_of(&param, 2).translation, Vec2::new(202_000, 2_000));
    keyboard = KeyboardInput::idle();
    keyboard.s = PRESS;
    keyboard.a = PRESS;
    keyboard.l_shift = HOLD;
    selection_manipulation(level(&mut param), &keyboard, &MouseInput::idle(), &Cursor::new());
    assert_eq!(transform_of(&param, 0).translation, Vec2::new(1_600, 1_600));
    // A held key moves nothing.
    keyboard.s = HOLD;
    keyboard.a = HOLD;
    selection_manipulation(level(&mut param), &keyboard, &MouseInput::idle(), &Cursor::new());
    assert_eq!(transform_of(&param, 0).translation, Vec2::new(1_600, 1_600));
}

#[test]
fn drag_moves_the_selection_with_the_pointer() {
    let mut param = level_of(2);
    select(&mut param, &[1]);
    let mut mouse = MouseInput::idle();
    mouse.left = HOLD;
    let mut cursor = Cursor::new();
    // The pointer went 3 pixels right and 1 up, so it went back by (-3, -1).
    cursor.delta = Vec2::new(-3_000, -1_000);
    selection_manipulation(level(&mut param), &KeyboardInput::idle(), &mouse, &cursor);
    assert_eq!(transform_of(&param, 1).translation, Vec2::new(103_000, 1_000));
    assert_eq!(transform_of(&param, 0).translation, Vec2::new(0, 0));
    // Not in the frame of the press.
    mouse.left = PRESS;
    selection_manipulation(level(&mut param), &KeyboardInput::idle(), &mouse, &cursor);
    assert_eq!(transform_of(&param, 1).translation, Vec2::new(103_000, 1_000));
}

#[test]
fn dragging_the_selection_starts_no_marquee() {
    let mut param = level_of(3);
    select(&mut param, &[1]);
    level(&mut param).shapes[2].hovered = Some(Hovered);
    let (mut select_box, _) = EditorPlugin.build();
    let before = select_box;
    let mut respawn = Respawn(false);
    let mut mouse = MouseInput::idle();
    mouse.left = HOLD;
    let mut cursor = cursor_at(300_000, 300_000);
    cursor.delta = Vec2::new(-1_000, 0);
    // The engine may report overlaps with the marquee where it lies.
    EditorPlugin.update(
        &mouse,
        &KeyboardInput::idle(),
        &cursor,
        &vec![2],
        &vec![0, 2],
        &mut respawn,
        &mut select_box,
        &mut param,
    );
    assert_eq!(selection(&param), vec![false, true, false]);
    assert_eq!(select_box, before);
    assert_eq!(transform_of(&param, 1).translation, Vec2::new(101_000, 0));
    assert_eq!(transform_of(&param, 0).translation, Vec2::new(0, 0));
}

#[test]
fn a_frame_of_the_editor_hovers_then_selects_then_paints() {
    let mut param = level_of(3);
    let (mut select_box, _) = EditorPlugin.build();
    let mut respawn = Respawn(false);
    let mut mouse = MouseInput::idle();
    // A click of the marquee button over the shape at place 1, all in one frame.
    mouse.right = ButtonState { pressed: false, just_pressed: true, just_released: true };
    EditorPlugin.update(
        &mouse,
        &KeyboardInput::idle(),
        &cursor_at(100_000, 0),
        &vec![1],
        &vec![],
        &mut respawn,
        &mut select_box,
        &mut param,
    );
    assert_eq!(hover(&param), vec![false, true, false]);
    assert_eq!(selection(&param), vec![false, true, false]);
    let tints: Vec<Color> = shapes(&param).iter().map(|s| s.material.color).collect();
    assert_eq!(tints, vec![Color::grey(50), Color::grey(90), Color::grey(50)]);
}

#[test]
fn left_click_on_an_unselected_hovered_shape_makes_it_the_selection() {
    let mut param = level_of(3);
    select(&mut param, &[0, 1]);
    level(&mut param).shapes[2].hovered = Some(Hovered);
    let mut mouse = MouseInput::idle();
    mouse.left = PRESS;
    selection_manipulation(level(&mut param), &KeyboardInput::idle(), &mouse, &Cursor::new());
    assert_eq!(selection(&param), vec![false, false, true]);
}

#[test]
fn left_click_on_a_selected_shape_or_on_nothing_keeps_the_selection() {
    let mut param = level_of(3);
    select(&mut param, &[0, 1]);
    level(&mut param).shapes[1].hovered = Some(Hovered);
    let mut mouse = MouseInput::idle();
    mouse.left = PRESS;
    selection_manipulation(level(&mut param), &KeyboardInput::idle(), &mouse, &Cursor::new());
    assert_eq!(selection(&param), vec![true, true, false]);
    level(&mut param).shapes[1].hovered = None;
    selection_manipulation(level(&mut param), &KeyboardInput::idle(), &mouse, &Cursor::new());
    assert_eq!(selection(&param), vec![true, true, false]);
}

#[test]
fn tint_follows_selection_hover_and_stickiness() {
    let mut param = level_of(4);
    level(&mut param).shapes[3].shape.stickable = false;
    level(&mut param).shapes[0].selected = Some(Selected);
    level(&mut param).shapes[0].hovered = Some(Hovered);
    level(&mut param).shapes[1].hovered = Some(Hovered);
    color_handler(level(&mut param));
    let tints: Vec<Color> = shapes(&param).iter().map(|s| s.material.color).collect();
    assert_eq!(tints, vec![Color::grey(90), Color::grey(60), Color::grey(50), Color::grey(25)]);

    level(&mut param).shapes[0].selected = None;
    level(&mut param).shapes[1].hovered = None;
    level(&mut param).shapes[3].selected = Some(Selected);
    color_handler(level(&mut param));
    let tints: Vec<Color> = shapes(&param).iter().map(|s| s.material.color).collect();
    assert_eq!(tints, vec![Color::grey(60), Color::grey(50), Color::grey(50), Color::grey(65)]);

    level(&mut param).shapes[3].selected = None;
    level(&mut param).shapes[3].hovered = Some(Hovered);
    color_handler(level(&mut param));
    assert_eq!(shapes(&param)[3].material.color, Color::grey(35));
}

#[test]
fn tint_of_an_unchanged_shape_is_left_alone() {
    let mut param = level_of(2);
    level(&mut param).shapes[0].material.color = Color::rgb(1, 2, 3);
    level(&mut param).shapes[1].material.color = Color::rgb(4, 5, 6);
    level(&mut param).shapes[1].selected = Some(Selected);
    color_handler(level(&mut param));
    assert_eq!(shapes(&param)[0].material.color, Color::rgb(1, 2, 3));
    assert_eq!(shapes(&param)[1].material.color, Color::grey(90));
}

#[test]
fn changes_are_listed_way_by_way() {
    let mut param = level_of(3);
    level(&mut param).shapes[0].selected = Some(Selected);
    level(&mut param).shapes[2].selected = Some(Selected);
    level(&mut param).shapes[2].hovered = Some(Hovered);
    level(&mut param).shapes[1].shape.stickable = false;
    let all = shapes(&param);
    assert_eq!(changed_shapes(all, ColorStateChange::AddSelect), vec![0, 2]);
    assert_eq!(changed_shapes(all, ColorStateChange::AddHover), vec![2]);
    assert_eq!(changed_shapes(all, ColorStateChange::RemSelect), Vec::<usize>::new());
    assert_eq!(changed_shapes(all, ColorStateChange::RemHover), Vec::<usize>::new());
    assert_eq!(changed_shapes(all, ColorStateChange::ChangeSticky), vec![1]);
    assert!(applies(&all[1], ColorStateChange::ChangeSticky));
    assert!(!applies(&all[1], ColorStateChange::AddSelect));
    color_handler(level(&mut param));
    let all = shapes(&param);
    assert!(changed_shapes(all, ColorStateChange::AddSelect).is_empty());
    level(&mut param).shapes[0].selected = None;
    level(&mut param).shapes[2].hovered = None;
    let all = shapes(&param);
    assert_eq!(changed_shapes(all, ColorStateChange::RemSelect), vec![0]);
    assert_eq!(changed_shapes(all, ColorStateChange::RemHover), vec![2]);
}

#[test]
fn middle_button_pans_the_camera_and_the_wheel_zooms_it() {
    let mut camera = Camera::new();
    let mut cursor = Cursor::new();
    cursor.delta = Vec2::new(5_000, -7_000);
    let mut mouse = MouseInput::idle();
    mouse.middle = PRESS;
    camera_movement(&mut camera, &cursor, &mouse, &vec![]);
    assert_eq!(camera.transform.translation, Vec2::new(0, 0));
    mouse.middle = HOLD;
    camera_movement(&mut camera, &cursor, &mouse, &vec![]);
    assert_eq!(camera.transform.translation, Vec2::new(5_000, -7_000));
    assert_eq!(camera.scale, 1000);

    // One notch in: a tenth of the way from 1 to 0.01.
    camera_movement(&mut camera, &cursor, &MouseInput::idle(), &vec![1000]);
    assert_eq!(camera.scale, 901);
    assert_eq!(camera.transform.translation, Vec2::new(5_000, -7_000));
    // Two notches out, one after the other: a tenth of 891 and then of 981
    // thousandths further from the limit, each step rounded down.
    camera_movement(&mut camera, &cursor, &MouseInput::idle(), &vec![-1000, -1000]);
    assert_eq!(camera.scale, 1090);
}

#[test]
fn zoom_comes_to_rest_at_the_limit() {
    let mut camera = Camera::new();
    camera.scale = 10;
    camera_movement(&mut camera, &Cursor::new(), &MouseInput::idle(), &vec![1000, 5000, -3000]);
    assert_eq!(camera.scale, 10);
}
