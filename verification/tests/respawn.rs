use webslinger::editor::components::{EditorShape, ShapeEntity, ShapeType};
use webslinger::game::level::Level;
use webslinger::game::player::camera::player_camera;
use webslinger::game::player::components::{FailedShot, RespawnMessage};
use webslinger::game::player::controls::controls::{
    player_controls, PlayerControlsParam, PlayerControlsQueries,
};
use webslinger::game::player::controls::phase::{phase, WebPhase};
use webslinger::game::player::controls::raycast::handle_raycast;
use webslinger::game::player::controls::web_connections::update_web_connections;
use webslinger::game::player::respawn_message::{respawn_message, spawn_message, too_fast};
use webslinger::game::player::spawn::{build_player, player_spawn, Respawn};
use webslinger::game::GamePlugin;
use webslinger::geometry::{Direction, Transform, Vec2};
use webslinger::input::ButtonState;
use webslinger::physics::{
    Body, Collider, CollisionGroups, Entity, ImpulseJoint, RayIntersection, RevoluteJoint, RigidBody,
};
use webslinger::util::{Color, ColorMaterial, ColorUpdate, Cursor, MeshKey};
use webslinger::{quit, setup};

const PRESS: ButtonState = ButtonState { pressed: true, just_pressed: true, just_released: false };
const HOLD: ButtonState = ButtonState { pressed: true, just_pressed: false, just_released: false };
const RELEASE: ButtonState = ButtonState { pressed: false, just_pressed: false, just_released: true };
const IDLE: ButtonState = ButtonState { pressed: false, just_pressed: false, just_released: false };

fn started() -> (PlayerControlsParam, PlayerControlsQueries, Level) {
    let (mut p, mut q, _) = GamePlugin.build();
    let mut level = Level::new();
    player_spawn(&mut p, &mut q, &mut level);
    (p, q, level)
}

fn assert_fresh(p: &PlayerControlsParam, q: &PlayerControlsQueries, level: &Level) {
    let player = q.player.expect("one player");
    let fresh = build_player();
    assert_eq!(player.body, fresh.body);
    assert_eq!(player.arm_l, fresh.arm_l);
    assert_eq!(player.arm_r, fresh.arm_r);
    assert_eq!(player.eyes, fresh.eyes);
    assert!(player.attached.is_none());
    assert!(q.shooting.is_none());
    assert_eq!(q.web_part_entities.len(), 0);
    assert_eq!(q.web_shot_entities.len(), 0);
    assert_eq!(q.web_connections.len(), 0);
    assert_eq!(p.web_connection_entities.entities.len(), 0);
    assert_eq!(p.failed_shot, FailedShot(false));
    assert_eq!(p.respawn_player, Respawn(false));
    assert!(level.shapes.iter().all(|s| s.body.joint.is_none()));
    assert_eq!(phase(p, q), WebPhase::Idle);
}

#[test]
fn game_begins_empty_with_a_respawn_asked_for() {
    let (p, q, message) = GamePlugin.build();
    assert_eq!(p.respawn_player, Respawn(true));
    assert_eq!(p.failed_shot, FailedShot(false));
    assert_eq!(p.frames_r_key.0, 0);
    assert!(p.web_connection_entities.entities.is_empty());
    assert_eq!(p.cursor, Cursor::new());
    assert!(q.player.is_none());
    assert!(q.shooting.is_none());
    assert!(q.web_part_entities.is_empty());
    assert!(!message.is_visible);
    assert_eq!(message, spawn_message());
}

#[test]
fn first_spawn_builds_the_rig() {
    let (p, q, level) = started();
    assert_fresh(&p, &q, &level);
}

#[test]
fn fresh_rig_has_one_torso_two_arms_and_two_eyes_in_place() {
    let player = build_player();
    let all = CollisionGroups::new(2, 0xffff_ffff);

    assert_eq!(player.body.transform, Transform::from_translation(Vec2::new(0, 0)));
    assert_eq!(player.body.depth, -10_000);
    assert_eq!(player.body.collider, Collider::CapsuleY { half_height: 20_000, radius: 20_000 });
    assert_eq!(player.body.rigid_body, RigidBody::Dynamic);
    assert_eq!(player.body.friction, Some(100));
    assert_eq!(player.body.restitution, Some(700));
    assert_eq!(player.body.groups, all);
    assert!(player.body.joint.is_none());
    assert!(player.body.damping.is_none());

    assert_eq!(player.arm_l.transform.translation, Vec2::new(45_000, 20_000));
    assert_eq!(player.arm_r.transform.translation, Vec2::new(-45_000, 20_000));
    for arm in [player.arm_l, player.arm_r] {
        assert_eq!(arm.collider, Collider::CapsuleX { half_height: 15_000, radius: 5_000 });
        assert_eq!(arm.rigid_body, RigidBody::Dynamic);
        assert_eq!(arm.damping.unwrap().angular_damping, 5_000);
        assert_eq!(arm.damping.unwrap().linear_damping, 0);
        assert_eq!(arm.friction, Some(500));
        assert_eq!(arm.restitution, Some(400));
        assert_eq!(arm.groups, all);
    }
    assert_eq!(
        player.arm_l.joint,
        Some(ImpulseJoint::new(
            Entity::Body,
            RevoluteJoint { local_anchor1: Vec2::new(25_000, 20_000), local_anchor2: Vec2::new(-20_000, 0) }
        ))
    );
    assert_eq!(
        player.arm_r.joint,
        Some(ImpulseJoint::new(
            Entity::Body,
            RevoluteJoint { local_anchor1: Vec2::new(-25_000, 20_000), local_anchor2: Vec2::new(20_000, 0) }
        ))
    );

    let eye_r = player.eyes[0];
    let eye_l = player.eyes[1];
    assert_eq!(eye_r.transform.translation, Vec2::new(-5_625, 21_250));
    assert_eq!(eye_l.transform.translation, Vec2::new(5_625, 21_250));
    for eye in [eye_r, eye_l] {
        assert_eq!(eye.depth, -100);
        assert_eq!(eye.collider, Collider::Ball { radius: 5_625 });
        assert_eq!(eye.damping.unwrap().angular_damping, 2_000);
        assert_eq!(eye.groups, CollisionGroups::new(0, 0));
    }
    assert_eq!(
        eye_r.joint.unwrap().data,
        RevoluteJoint { local_anchor1: Vec2::new(-8_750, 21_250), local_anchor2: Vec2::new(-3_125, 0) }
    );
    assert_eq!(
        eye_l.joint.unwrap().data,
        RevoluteJoint { local_anchor1: Vec2::new(8_750, 21_250), local_anchor2: Vec2::new(3_125, 0) }
    );
    assert!(player.attached.is_none());
}

#[test]
fn spawn_does_nothing_unless_asked() {
    let (mut p, mut q, mut level) = started();
    let mut player = q.player.unwrap();
    player.body.transform.translation = Vec2::new(123, 456);
    player.body.velocity = Vec2::new(7, 8);
    q.player = Some(player);
    player_spawn(&mut p, &mut q, &mut level);
    assert_eq!(q.player.unwrap().body.transform.translation, Vec2::new(123, 456));
    assert_eq!(q.player.unwrap().body.velocity, Vec2::new(7, 8));
}

#[test]
fn respawn_rebuilds_the_rig_and_leaves_no_web_whatever_the_state() {
    // While the web holds, with bars drawn.
    let (mut p, mut q, mut level) = started();
    level.shapes.push(sticky_shape());
    p.cursor.world_pos = Vec2::new(900_000, 20_000);
    p.mouse.left = PRESS;
    player_controls(&mut p, &mut q, &mut level);
    p.mouse.left = HOLD;
    let cast = player_controls(&mut p, &mut q, &mut level).unwrap();
    let hit = RayIntersection { point: Vec2::new(140_000, 20_000), normal: Direction::new(-1_000_000, 0), toi: 80_000 };
    handle_raycast(&mut p, &mut q, &mut level, Some((0, hit)), cast.origin);
    update_web_connections(&p.web_connection_entities, &mut q);
    assert_eq!(phase(&p, &q), WebPhase::Attached);
    assert_eq!(q.web_part_entities.len(), 9);
    assert_eq!(q.web_connections.len(), 8);
    assert!(level.shapes[0].body.joint.is_some());
    let mut player = q.player.unwrap();
    player.body.transform.translation = Vec2::new(5_000_000, -3_000_000);
    player.body.velocity = Vec2::new(0, -5_000_000);
    q.player = Some(player);
    p.respawn_player = Respawn(true);
    player_spawn(&mut p, &mut q, &mut level);
    assert_fresh(&p, &q, &level);
    assert_eq!(level.shapes.len(), 1);

    // While a failed shot is being drawn back.
    let (mut p, mut q, mut level) = started();
    p.mouse.left = PRESS;
    player_controls(&mut p, &mut q, &mut level);
    p.mouse.left = HOLD;
    for _ in 0..11 {
        let cast = player_controls(&mut p, &mut q, &mut level).unwrap();
        handle_raycast(&mut p, &mut q, &mut level, None, cast.origin);
    }
    assert_eq!(phase(&p, &q), WebPhase::Failed);
    p.respawn_player = Respawn(true);
    player_spawn(&mut p, &mut q, &mut level);
    assert_fresh(&p, &q, &level);

    // Twice in a row.
    p.respawn_player = Respawn(true);
    player_spawn(&mut p, &mut q, &mut level);
    assert_fresh(&p, &q, &level);
}

fn sticky_shape() -> ShapeEntity {
    ShapeEntity {
        shape: EditorShape::new(ShapeType::Oval, true),
        body: Body {
            transform: Transform::from_translation(Vec2::new(200_000, 20_000)),
            depth: 1000,
            velocity: Vec2::zero(),
            collider: Collider::Ball { radius: 1000 },
            rigid_body: RigidBody::Fixed,
            damping: None,
            friction: Some(100),
            restitution: Some(400),
            groups: CollisionGroups::new(1, 254),
            joint: None,
        },
        mesh: MeshKey::Circle1,
        material: ColorMaterial { color: Color::grey(50) },
        selected: None,
        hovered: None,
        selectable: None,
        painted: ColorUpdate { selected: false, hovered: false, stickable: true },
    }
}

#[test]
fn held_button_after_a_respawn_does_not_shoot() {
    let (mut p, mut q, mut level) = started();
    p.mouse.left = PRESS;
    player_controls(&mut p, &mut q, &mut level);
    p.respawn_player = Respawn(true);
    player_spawn(&mut p, &mut q, &mut level);
    p.mouse.left = HOLD;
    assert!(player_controls(&mut p, &mut q, &mut level).is_none());
    assert_fresh(&p, &q, &level);
}

#[test]
fn restart_key_held_for_forty_five_frames_asks_for_a_respawn() {
    let (mut p, mut q, mut level) = started();
    p.keyboard.r = PRESS;
    player_controls(&mut p, &mut q, &mut level);
    p.keyboard.r = HOLD;
    for frame in 2..=44u32 {
        player_controls(&mut p, &mut q, &mut level);
        assert_eq!(p.frames_r_key.0, frame);
        assert_eq!(p.respawn_player, Respawn(false));
    }
    player_controls(&mut p, &mut q, &mut level);
    assert_eq!(p.respawn_player, Respawn(true));
    assert_eq!(p.frames_r_key.0, 0);
}

#[test]
fn letting_the_restart_key_go_starts_the_count_again() {
    let (mut p, mut q, mut level) = started();
    p.keyboard.r = HOLD;
    for _ in 0..44 {
        player_controls(&mut p, &mut q, &mut level);
    }
    assert_eq!(p.frames_r_key.0, 44);
    p.keyboard.r = RELEASE;
    player_controls(&mut p, &mut q, &mut level);
    assert_eq!(p.frames_r_key.0, 0);
    assert_eq!(p.respawn_player, Respawn(false));
    p.keyboard.r = IDLE;
    player_controls(&mut p, &mut q, &mut level);
    assert_eq!(p.frames_r_key.0, 0);
    p.keyboard.r = HOLD;
    for _ in 0..44 {
        player_controls(&mut p, &mut q, &mut level);
    }
    assert_eq!(p.respawn_player, Respawn(false));
}

#[test]
fn a_tap_on_the_restart_key_does_not_respawn() {
    let (mut p, mut q, mut level) = started();
    p.keyboard.r = ButtonState { pressed: false, just_pressed: true, just_released: true };
    player_controls(&mut p, &mut q, &mut level);
    assert_eq!(p.respawn_player, Respawn(false));
    assert_eq!(p.frames_r_key.0, 0);
}

#[test]
fn speed_of_four_thousand_pixels_a_second_counts_as_lost() {
    assert!(too_fast(Vec2::new(4_000_000, 0)));
    assert!(too_fast(Vec2::new(0, -4_000_000)));
    assert!(too_fast(Vec2::new(-2_400_000, 3_200_000)));
    assert!(!too_fast(Vec2::new(3_999_999, 0)));
    assert!(!too_fast(Vec2::new(2_400_000, -3_199_999)));
    assert!(!too_fast(Vec2::new(0, 0)));
    assert!(too_fast(Vec2::new(i64::MIN, i64::MAX)));
}

#[test]
fn prompt_shows_and_respawn_is_asked_for_when_the_torso_is_too_fast() {
    let (_, mut q, _) = started();
    let mut message = RespawnMessage { is_visible: false };
    let mut respawn = Respawn(false);

    respawn_message(&mut message, &q.player, &mut respawn);
    assert!(!message.is_visible);
    assert_eq!(respawn, Respawn(false));

    let mut player = q.player.unwrap();
    player.body.velocity = Vec2::new(0, -4_000_000);
    q.player = Some(player);
    respawn_message(&mut message, &q.player, &mut respawn);
    assert!(message.is_visible);
    assert_eq!(respawn, Respawn(true));

    player.body.velocity = Vec2::new(0, -3_000_000);
    q.player = Some(player);
    respawn_message(&mut message, &q.player, &mut respawn);
    assert!(!message.is_visible);
    // What has been asked for stays asked for.
    assert_eq!(respawn, Respawn(true));
}

#[test]
fn prompt_is_left_alone_without_a_player() {
    let mut message = RespawnMessage { is_visible: true };
    let mut respawn = Respawn(false);
    respawn_message(&mut message, &None, &mut respawn);
    assert!(message.is_visible);
    assert_eq!(respawn, Respawn(false));
}

#[test]
fn camera_goes_half_way_to_the_torso_leaning_to_the_pointer() {
    let (_, mut q, _) = started();
    let mut player = q.player.unwrap();
    player.body.transform.translation = Vec2::new(100_000, -40_000);
    q.player = Some(player);
    let mut cursor = Cursor::new();
    cursor.pos = Vec2::new(200_000, 100_000);
    let mut camera = setup();
    player_camera(&mut camera.transform, &q.player, &cursor);
    // The goal is (130, -25) pixels; half way from the origin is (65, -12.5).
    assert_eq!(camera.transform.translation, Vec2::new(65_000, -12_500));
    player_camera(&mut camera.transform, &q.player, &cursor);
    assert_eq!(camera.transform.translation, Vec2::new(97_500, -18_750));
    assert_eq!(camera.transform.rotation, Direction::new(1_000_000, 0));

    let before = camera;
    player_camera(&mut camera.transform, &None, &cursor);
    assert_eq!(camera, before);
}

#[test]
fn escape_quits() {
    let mut keyboard = webslinger::input::KeyboardInput::idle();
    assert!(!quit(&keyboard));
    keyboard.escape = HOLD;
    assert!(quit(&keyboard));
    keyboard.escape = RELEASE;
    assert!(!quit(&keyboard));
}

#[test]
fn camera_is_set_up_at_the_origin_at_scale_one() {
    let camera = setup();
    assert_eq!(camera.transform, Transform::identity());
    assert_eq!(camera.scale, 1000);
}
