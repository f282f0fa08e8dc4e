use cube_sandbox::geometry::{
    projection_in_range, spawn_position_for_transform, Quat, Transform, Vec3, SPAWN_DISTANCE,
    UNIT,
};

fn posed(x: i64, y: i64, z: i64, rotation: Quat) -> Transform {
    let mut t = Transform::from_xyz(x, y, z);
    t.rotation = rotation;
    t
}

#[test]
fn projection_is_deterministic() {
    let t = posed(1_234_567, -89, 42, Quat { w: 958861, x: -211719, y: -184660, z: -40773 });
    let a = spawn_position_for_transform(&t, SPAWN_DISTANCE);
    let b = spawn_position_for_transform(&t, SPAWN_DISTANCE);
    assert_eq!(a, b);
}

#[test]
fn identity_at_origin_projects_down_negative_z() {
    let t = Transform::from_xyz(0, 0, 0);
    assert_eq!(spawn_position_for_transform(&t, 6 * UNIT), Vec3::new(0, 0, -6 * UNIT));
    assert_eq!(spawn_position_for_transform(&t, 0), Vec3::new(0, 0, 0));
}

#[test]
fn half_turn_about_y_projects_along_positive_z() {
    let t = posed(UNIT, 2 * UNIT, 3 * UNIT, Quat { w: 0, x: 0, y: UNIT, z: 0 });
    assert_eq!(spawn_position_for_transform(&t, 6 * UNIT), Vec3::new(UNIT, 2 * UNIT, 9 * UNIT));
}

#[test]
fn quarter_turn_about_y_projects_along_negative_x() {
    let t = posed(0, 0, 0, Quat { w: 707107, x: 0, y: 707107, z: 0 });
    assert_eq!(spawn_position_for_transform(&t, 6 * UNIT), Vec3::new(-6_000_004, 0, 3));
}

#[test]
fn translation_is_added_to_the_offset() {
    let t = Transform::from_xyz(5 * UNIT, -UNIT, 7);
    assert_eq!(spawn_position_for_transform(&t, 6 * UNIT), Vec3::new(5 * UNIT, -UNIT, 7 - 6 * UNIT));
}

#[test]
fn projection_range_is_checked() {
    let near = Transform::from_xyz(0, 0, 0);
    assert!(projection_in_range(&near, SPAWN_DISTANCE));
    let far = Transform::from_xyz(0, 0, i64::MIN + 1);
    assert!(!projection_in_range(&far, SPAWN_DISTANCE));
    let edge = Transform::from_xyz(0, 0, i64::MIN + SPAWN_DISTANCE);
    assert!(projection_in_range(&edge, SPAWN_DISTANCE));
}

#[test]
fn rotation_components_must_lie_within_one() {
    assert!(Quat::identity().is_valid());
    assert!(Transform::from_xyz(1, 2, 3).is_valid());
    assert!(!Quat { w: UNIT + 1, x: 0, y: 0, z: 0 }.is_valid());
    assert!(!posed(0, 0, 0, Quat { w: 0, x: 0, y: 0, z: -UNIT - 1 }).is_valid());
}
