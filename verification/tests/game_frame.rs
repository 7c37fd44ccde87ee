use webslinger::editor::components::{EditorShape, ShapeType};
use webslinger::editor::editor::SpawnShapeParam;
use webslinger::game::level::{level_startup, LevelEntity};
use webslinger::game::player::components::RespawnMessage;
use webslinger::game::player::controls::controls::{PlayerControlsParam, PlayerControlsQueries};
use webslinger::game::player::controls::phase::{phase, WebPhase};
use webslinger::game::player::spawn::Respawn;
use webslinger::game::GamePlugin;
use webslinger::geometry::{Direction, Transform, Vec2};
use webslinger::input::ButtonState;
use webslinger::physics::{Entity, RayIntersection};
use webslinger::util::{preload_assets, PreloadedAssets};

const PRESS: ButtonState = ButtonState { pressed: true, just_pressed: true, just_released: false };
const HOLD: ButtonState = ButtonState { pressed: true, just_pressed: false, just_released: false };
const RELEASE: ButtonState = ButtonState { pressed: false, just_pressed: false, just_released: true };

struct Game {
    p: PlayerControlsParam,
    q: PlayerControlsQueries,
    message: RespawnMessage,
    camera: Transform,
    spawn: SpawnShapeParam,
}

/// A game with one sticky rectangle to the right of the player.
fn game() -> Game {
    let (p, q, message) = GamePlugin.build();
    let mut preload = PreloadedAssets::new();
    preload_assets(&mut preload);
    let mut level = LevelEntity { entity: None };
    level_startup(&mut level);
    let mut spawn = SpawnShapeParam { preload, level };
    EditorShape::new(ShapeType::Rectangle, true).spawn(
        &mut spawn,
        &Transform::from_translation(Vec2::pixels(200, 20)).with_scale(Vec2::pixels(20, 20)),
    );
    Game { p, q, message, camera: Transform::identity(), spawn }
}

/// Runs one frame in which the ray, if one is cast, meets `met`.
fn frame(game: &mut Game, met: Option<(usize, RayIntersection)>) -> bool {
    let level = game.spawn.level.entity.as_mut().unwrap();
    let cast = GamePlugin.update(&mut game.p, &mut game.q, level).map(|ray| (ray, met));
    let cast_a_ray = cast.is_some();
    GamePlugin.finish(&mut game.p, &mut game.q, level, &mut game.message, &mut game.camera, cast);
    cast_a_ray
}

#[test]
fn first_frame_builds_the_player_and_casts_no_ray() {
    let mut game = game();
    assert!(game.q.player.is_none());
    assert!(!frame(&mut game, None));
    assert!(game.q.player.is_some());
    assert_eq!(game.p.respawn_player, Respawn(false));
    assert_eq!(phase(&game.p, &game.q), WebPhase::Idle);
    assert!(!game.message.is_visible);
}

#[test]
fn a_whole_shot_from_press_to_release() {
    let mut game = game();
    frame(&mut game, None);
    // The hand is at (60, 20) pixels; the pointer far to the right of it.
    game.p.cursor.world_pos = Vec2::pixels(900, 20);
    game.p.mouse.left = PRESS;
    assert!(!frame(&mut game, None));
    assert_eq!(phase(&game.p, &game.q), WebPhase::Shooting);

    game.p.mouse.left = HOLD;
    assert!(frame(&mut game, None));
    assert_eq!(game.q.shooting.unwrap().steps, 1);
    assert_eq!(game.q.web_shot_entities[0].transform.translation, Vec2::pixels(110, 20));

    // The second step reaches the shape, 140 pixels from the hand.
    let hit = RayIntersection {
        point: Vec2::pixels(200, 20),
        normal: Direction::new(-1_000_000, 0),
        toi: 140_000,
    };
    assert!(frame(&mut game, Some((0, hit))));
    assert_eq!(phase(&game.p, &game.q), WebPhase::Attached);
    assert_eq!(game.q.player.unwrap().attached.unwrap().num_segments, 18);
    assert_eq!(game.q.web_part_entities.len(), 17);
    // The bars are there in the same frame.
    assert_eq!(game.q.web_connections.len(), 16);
    assert_eq!(game.q.web_connections[15].e1, Entity::WebPart(15));
    assert_eq!(game.q.web_connections[15].e2, Entity::WebPart(16));
    let level = game.spawn.level.entity.as_ref().unwrap();
    assert_eq!(level.shapes[0].body.joint.unwrap().parent, Entity::WebPart(16));

    // While the web holds no ray is cast.
    assert!(!frame(&mut game, None));
    assert_eq!(phase(&game.p, &game.q), WebPhase::Attached);

    game.p.mouse.left = RELEASE;
    assert!(!frame(&mut game, None));
    assert_eq!(phase(&game.p, &game.q), WebPhase::Idle);
    assert!(game.q.web_part_entities.is_empty());
    assert!(game.q.web_connections.is_empty());
    let level = game.spawn.level.entity.as_ref().unwrap();
    assert!(level.shapes[0].body.joint.is_none());
}

#[test]
fn falling_too_fast_shows_the_prompt_and_respawns_in_the_next_frame() {
    let mut game = game();
    frame(&mut game, None);
    let mut player = game.q.player.unwrap();
    player.body.transform.translation = Vec2::pixels(0, -9000);
    player.body.velocity = Vec2::new(0, -4_500_000);
    game.q.player = Some(player);
    frame(&mut game, None);
    assert!(game.message.is_visible);
    assert_eq!(game.p.respawn_player, Respawn(true));

    frame(&mut game, None);
    let player = game.q.player.unwrap();
    assert_eq!(player.body.transform.translation, Vec2::new(0, 0));
    assert_eq!(player.body.velocity, Vec2::new(0, 0));
    assert!(!game.message.is_visible);
    assert_eq!(game.p.respawn_player, Respawn(false));
}

#[test]
fn camera_follows_the_player_in_every_frame() {
    let mut game = game();
    frame(&mut game, None);
    let mut player = game.q.player.unwrap();
    player.body.transform.translation = Vec2::pixels(40, 80);
    game.q.player = Some(player);
    frame(&mut game, None);
    assert_eq!(game.camera.translation, Vec2::pixels(20, 40));
    frame(&mut game, None);
    assert_eq!(game.camera.translation, Vec2::pixels(30, 60));
}
