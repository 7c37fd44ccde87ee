use webslinger::geometry::{Direction, Transform, Vec2};
use webslinger::util::{
    cursor_pos, preload_assets, update_color_material, Color, ColorMaterial, ColorUpdate, Cursor,
    ExtraTransformMethods, Mesh, MeshKey, PreloadedAssets, PreloadedMeshes, ZipAll, ZipAllTrait,
};

#[test]
fn new_cursor_rests_at_the_origin() {
    let cursor = Cursor::new();
    assert_eq!(cursor, Cursor::default());
    assert_eq!(cursor.pos, Vec2::new(0, 0));
    assert_eq!(cursor.world_pos, Vec2::new(0, 0));
    assert_eq!(cursor.delta, Vec2::new(0, 0));
    assert!(!cursor.moved);
}

#[test]
fn cursor_takes_the_last_report_relative_to_the_middle_of_the_window() {
    let mut cursor = Cursor::new();
    let window = Vec2::new(800_000, 600_000);
    let reports = vec![Vec2::new(1, 1), Vec2::new(500_000, 400_000)];
    // The camera shows the world at twice its size, from (10, -10) pixels.
    cursor_pos(&mut cursor, &reports, window, 2000, Vec2::new(10_000, -10_000));
    assert_eq!(cursor.pos, Vec2::new(100_000, 100_000));
    assert_eq!(cursor.prev_pos, Vec2::new(0, 0));
    assert_eq!(cursor.world_pos, Vec2::new(210_000, 190_000));
    assert_eq!(cursor.prev_world_pos, Vec2::new(0, 0));
    assert_eq!(cursor.delta, Vec2::new(-200_000, -200_000));
    assert!(cursor.moved);
}

#[test]
fn resting_cursor_keeps_its_place_and_follows_the_camera() {
    let mut cursor = Cursor::new();
    let window = Vec2::new(800_000, 600_000);
    cursor_pos(&mut cursor, &vec![Vec2::new(500_000, 400_000)], window, 1000, Vec2::new(0, 0));
    cursor_pos(&mut cursor, &vec![], window, 500, Vec2::new(1_000, 2_000));
    assert_eq!(cursor.pos, Vec2::new(100_000, 100_000));
    assert_eq!(cursor.prev_pos, Vec2::new(100_000, 100_000));
    assert_eq!(cursor.world_pos, Vec2::new(51_000, 52_000));
    assert_eq!(cursor.prev_world_pos, Vec2::new(100_000, 100_000));
    assert_eq!(cursor.delta, Vec2::new(0, 0));
    assert!(!cursor.moved);
}

#[test]
fn tint_is_grey_by_stickiness_brightened_by_selection_or_hover() {
    let tint = |selected, hovered, stickable| ColorUpdate { selected, hovered, stickable }.get_color();
    assert_eq!(tint(false, false, true), Color::rgb(50, 50, 50));
    assert_eq!(tint(false, false, false), Color::rgb(25, 25, 25));
    assert_eq!(tint(true, false, true), Color::rgb(90, 90, 90));
    assert_eq!(tint(true, true, true), Color::rgb(90, 90, 90));
    assert_eq!(tint(false, true, true), Color::rgb(60, 60, 60));
    assert_eq!(tint(true, false, false), Color::rgb(65, 65, 65));
    assert_eq!(tint(true, true, false), Color::rgb(65, 65, 65));
    assert_eq!(tint(false, true, false), Color::rgb(35, 35, 35));
}

#[test]
fn material_is_repainted_with_the_tint() {
    let mut material = ColorMaterial { color: Color::rgb(100, 0, 0) };
    update_color_material(&mut material, ColorUpdate { selected: false, hovered: true, stickable: true });
    assert_eq!(material.color, Color::grey(60));
}

#[test]
fn brightness_weighs_green_most_and_blue_least() {
    assert_eq!(Color::rgb(100, 100, 100).luma(), 100);
    assert_eq!(Color::rgb(0, 0, 0).luma(), 0);
    assert_eq!(Color::rgb(100, 0, 0).luma(), 30);
    assert_eq!(Color::rgb(0, 100, 0).luma(), 59);
    assert_eq!(Color::rgb(0, 0, 100).luma(), 11);
    assert_eq!(Color::rgb(50, 50, 50).luma(), 50);
    assert_eq!(Color::rgb(255, 255, 255).luma(), 255);
}

#[test]
fn preloading_makes_the_grey_ramp_and_the_four_meshes() {
    let mut assets = PreloadedAssets::new();
    assert!(assets.materials.is_empty());
    assert_eq!(assets.meshes, PreloadedMeshes::new());
    preload_assets(&mut assets);
    assert_eq!(assets.materials.len(), 101);
    for (i, material) in assets.materials.iter().enumerate() {
        assert_eq!(material.color, Color::grey(i as u8));
    }
    assert_eq!(assets.meshes.get(MeshKey::Box1), Some(Mesh::Box { x_length: 1000, y_length: 1000, z_length: 0 }));
    assert_eq!(assets.meshes.get(MeshKey::Box2), Some(Mesh::Box { x_length: 2000, y_length: 2000, z_length: 0 }));
    assert_eq!(assets.meshes.get(MeshKey::Circle1), Some(Mesh::Circle { radius: 1000 }));
    assert_eq!(assets.meshes.get(MeshKey::Circle4), Some(Mesh::Circle { radius: 4000 }));
}

#[test]
fn grey_ramp_is_in_place_only_when_all_of_it_is() {
    let mut assets = PreloadedAssets::new();
    assert!(!assets.is_loaded());
    preload_assets(&mut assets);
    assert!(assets.is_loaded());
    // More materials after the ramp do no harm.
    assets.materials.push(ColorMaterial { color: Color::rgb(1, 2, 3) });
    assert!(assets.is_loaded());
    assets.materials[40].color = Color::rgb(40, 40, 41);
    assert!(!assets.is_loaded());
    assets.materials[40].color = Color::grey(40);
    assets.materials.truncate(100);
    assert!(!assets.is_loaded());
}

#[test]
fn shared_material_is_the_grey_nearest_to_the_brightness() {
    let mut assets = PreloadedAssets::new();
    preload_assets(&mut assets);
    assert_eq!(assets.get_bw_color_handle(Color::rgb(100, 100, 100)).color, Color::grey(100));
    assert_eq!(assets.get_bw_color_handle(Color::rgb(100, 0, 0)).color, Color::grey(30));
    assert_eq!(assets.get_bw_color_handle(Color::grey(65)).color, Color::grey(65));
}

#[test]
fn mesh_kept_under_a_name_replaces_the_one_before() {
    let mut meshes = PreloadedMeshes::new();
    assert_eq!(meshes.get(MeshKey::Circle4), None);
    meshes.insert(MeshKey::Circle4, Mesh::Circle { radius: 1 });
    meshes.insert(MeshKey::Circle4, Mesh::Circle { radius: 2 });
    assert_eq!(meshes.get(MeshKey::Circle4), Some(Mesh::Circle { radius: 2 }));
    assert_eq!(meshes.get(MeshKey::Circle1), None);
    assert_eq!(meshes.get(MeshKey::Box1), None);
}

#[test]
fn zip_all_pairs_every_item_with_the_same_value() {
    let mut zipped = vec![3u8, 1, 4].zip_all('x');
    assert_eq!(zipped.next(), Some((3, 'x')));
    assert_eq!(zipped.next(), Some((1, 'x')));
    assert_eq!(zipped.next(), Some((4, 'x')));
    assert_eq!(zipped.next(), None);
    assert_eq!(zipped.next(), None);

    assert_eq!(ZipAll::new(vec![7i32, 8], true).collect(), vec![(7, true), (8, true)]);
    assert_eq!(Vec::<u8>::new().zip_all(0u8).collect(), Vec::<(u8, u8)>::new());
    let mut started = vec![1u8, 2, 3].zip_all(9u8);
    started.next();
    assert_eq!(started.collect(), vec![(2, 9), (3, 9)]);
}

#[test]
fn bar_between_two_points_is_centred_turned_and_as_long_as_they_are_apart() {
    let bar = Transform::from_pt_to_pt(Vec2::new(0, 0), Vec2::new(0, 10_000), 8_000);
    assert_eq!(bar.translation, Vec2::new(0, 5_000));
    assert_eq!(bar.rotation, Direction::new(1_000_000, 0));
    assert_eq!(bar.scale, Vec2::new(8_000, 10_000));

    let bar = Transform::from_pt_to_pt(Vec2::new(10_000, 10_000), Vec2::new(40_000, 50_000), 2_000);
    assert_eq!(bar.translation, Vec2::new(25_000, 30_000));
    // The y axis is turned to (0.6, 0.8), so the x axis to (0.8, -0.6).
    assert_eq!(bar.rotation, Direction::new(800_000, -600_000));
    assert_eq!(bar.scale, Vec2::new(2_000, 50_000));

    let bar = Transform::from_pt_to_pt(Vec2::new(-3, 0), Vec2::new(-8, 0), 1);
    assert_eq!(bar.translation, Vec2::new(-6, 0));
    assert_eq!(bar.rotation, Direction::new(0, 1_000_000));
    assert_eq!(bar.scale, Vec2::new(1, 5));
}
