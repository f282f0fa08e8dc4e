use cube_sandbox::body::{CoolCubeBundle, MeshShape};
use cube_sandbox::geometry::{spawn_position_for_transform, Quat, Transform, Vec3, SPAWN_DISTANCE, UNIT};
use cube_sandbox::scene::{move_cursor_thing, setup, spawn_cubes_on_click, ButtonState};

#[test]
fn setup_creates_one_of_each() {
    let s = setup();
    assert_eq!(s.bodies.len(), 1);
    assert_eq!(s.bodies[0], CoolCubeBundle::new(Vec3::new(0, 10 * UNIT, 0)));
    assert_eq!(s.ground.visual.mesh, MeshShape::Plane { size: 100 * UNIT });
    assert_eq!(s.ground.collider.half_y, 1000);
    assert_eq!(s.light.transform.translation, Vec3::new(4 * UNIT, 8 * UNIT, 4 * UNIT));
    assert_eq!(s.light.intensity, 1500 * UNIT);
    assert!(s.light.shadows_enabled);
    assert_eq!(s.camera.transform.translation, Vec3::new(-2 * UNIT, 2_500_000, 5 * UNIT));
    assert!(s.camera.transform.is_valid());
    assert_eq!(s.cursor.transform.translation, Vec3::new(0, 0, 0));
    assert!(s.cursor.visual.material.alpha_blend);
    assert!(!s.spawn_button.pressed);
}

#[test]
fn initial_camera_looks_at_the_origin() {
    let s = setup();
    // The camera stands about 5.94 units from the origin.
    let p = spawn_position_for_transform(&s.camera.transform, SPAWN_DISTANCE);
    assert_eq!(p, Vec3::new(21_170, -26_459, -52_909));
}

#[test]
fn held_button_spawns_once() {
    let mut s = setup();
    for t in 0..3u64 {
        s.tick(true, t * 16_000);
    }
    assert_eq!(s.bodies.len(), 2);
    let expected = spawn_position_for_transform(&s.camera.transform, SPAWN_DISTANCE);
    assert_eq!(s.bodies[1], CoolCubeBundle::new(expected));
}

#[test]
fn release_and_press_again_spawns_again() {
    let mut s = setup();
    s.tick(true, 0);
    s.tick(false, 1);
    s.tick(false, 2);
    s.tick(true, 3);
    s.tick(true, 4);
    assert_eq!(s.bodies.len(), 3);
    s.tick(false, 5);
    assert_eq!(s.bodies.len(), 3);
}

#[test]
fn button_reports_press_edges_only() {
    let mut b = ButtonState { pressed: false };
    assert!(!b.just_pressed(false));
    assert!(b.just_pressed(true));
    assert!(!b.just_pressed(true));
    assert!(!b.just_pressed(false));
    assert!(b.just_pressed(true));
}

#[test]
fn spawn_without_edge_adds_nothing() {
    let camera = Transform::from_xyz(0, 0, 0);
    let mut bodies = Vec::new();
    spawn_cubes_on_click(false, &camera, &mut bodies);
    assert!(bodies.is_empty());
    spawn_cubes_on_click(true, &camera, &mut bodies);
    assert_eq!(bodies, vec![CoolCubeBundle::new(Vec3::new(0, 0, -6 * UNIT))]);
}

#[test]
fn cursor_tracks_camera_every_tick() {
    let mut s = setup();
    let a = Transform::from_xyz(UNIT, 0, 0);
    let mut b = Transform::from_xyz(0, 3 * UNIT, -UNIT);
    b.rotation = Quat { w: 0, x: 0, y: UNIT, z: 0 };
    s.set_camera(a);
    s.tick(false, 0);
    assert_eq!(s.cursor.transform.translation, Vec3::new(UNIT, 0, -6 * UNIT));
    s.set_camera(b);
    s.tick(false, 16_000);
    let expected = spawn_position_for_transform(&b, SPAWN_DISTANCE);
    assert_eq!(expected, Vec3::new(0, 3 * UNIT, 5 * UNIT));
    assert_eq!(s.cursor.transform.translation, expected);
    assert_ne!(s.cursor.transform.translation, spawn_position_for_transform(&a, SPAWN_DISTANCE));
}

#[test]
fn cursor_keeps_its_rotation_and_scale() {
    let mut s = setup();
    s.cursor.transform.rotation = Quat { w: 0, x: UNIT, y: 0, z: 0 };
    s.cursor.transform.scale = Vec3::new(1, 2, 3);
    let camera = Transform::from_xyz(0, 0, 0);
    move_cursor_thing(&camera, &mut s.cursor.transform);
    assert_eq!(s.cursor.transform.translation, Vec3::new(0, 0, -6 * UNIT));
    assert_eq!(s.cursor.transform.rotation, Quat { w: 0, x: UNIT, y: 0, z: 0 });
    assert_eq!(s.cursor.transform.scale, Vec3::new(1, 2, 3));
}

#[test]
fn tick_moves_light_and_cursor() {
    let mut s = setup();
    s.tick(false, 12_000_000);
    assert_eq!(s.light.transform.translation, Vec3::new(4 * UNIT, 8 * UNIT, 6 * UNIT));
    assert_eq!(s.cursor.transform.translation, Vec3::new(21_170, -26_459, -52_909));
    assert_eq!(s.bodies.len(), 1);
}

#[test]
fn tick_leaves_live_bodies_ground_and_camera() {
    let mut s = setup();
    let first = s.bodies[0];
    let ground = s.ground;
    let camera = s.camera;
    s.tick(true, 0);
    s.tick(false, 1);
    s.tick(true, 2);
    assert_eq!(s.bodies.len(), 3);
    assert_eq!(s.bodies[0], first);
    assert_eq!(s.ground, ground);
    assert_eq!(s.camera, camera);
}
