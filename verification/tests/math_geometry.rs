use webslinger::geometry::{Direction, Transform, Vec2};
use webslinger::math::{ceil_div_i64, floor_div, isqrt, isqrt_ceil, magnitude, mul_div, saturate, wide_mul};

#[test]
fn integer_square_root_rounds_down() {
    for (n, root) in [(0u128, 0u64), (1, 1), (2, 1), (3, 1), (4, 2), (8, 2), (9, 3), (99, 9), (100, 10), (101, 10)] {
        assert_eq!(isqrt(n), root);
    }
    assert_eq!(isqrt(10_000_000_000), 100_000);
    assert_eq!(isqrt(9_999_999_999), 99_999);
    assert_eq!(isqrt(u128::MAX), u64::MAX);
    assert_eq!(isqrt((u64::MAX as u128) * (u64::MAX as u128)), u64::MAX);
    assert_eq!(isqrt((u64::MAX as u128) * (u64::MAX as u128) - 1), u64::MAX - 1);
    assert_eq!(isqrt(1 << 126), 1 << 63);
}

#[test]
fn ceiling_square_root_rounds_up() {
    for (n, root) in [(0u128, 0u64), (1, 1), (2, 2), (4, 2), (5, 3), (9, 3), (10, 4), (100, 10), (101, 11)] {
        assert_eq!(isqrt_ceil(n), root);
    }
    assert_eq!(isqrt_ceil(1 << 127), 13_043_817_825_332_782_213);
}

#[test]
fn floor_division_rounds_towards_minus_infinity() {
    assert_eq!(floor_div(7, 2), 3);
    assert_eq!(floor_div(-7, 2), -4);
    assert_eq!(floor_div(-8, 2), -4);
    assert_eq!(floor_div(-1, 1000), -1);
    assert_eq!(floor_div(0, 5), 0);
    assert_eq!(floor_div(999, 1000), 0);
    assert_eq!(floor_div(i128::MIN + 1, 1), i128::MIN + 1);
    assert_eq!(floor_div(i128::MAX, i128::MAX), 1);
}

#[test]
fn ceiling_division_rounds_up() {
    assert_eq!(ceil_div_i64(0, 7), 0);
    assert_eq!(ceil_div_i64(1, 7), 1);
    assert_eq!(ceil_div_i64(7, 7), 1);
    assert_eq!(ceil_div_i64(8, 7), 2);
    assert_eq!(ceil_div_i64(40_000, 13), 3_077);
    assert_eq!(ceil_div_i64(i64::MAX, 1), i64::MAX);
    assert_eq!(ceil_div_i64(i64::MAX, i64::MAX), 1);
}

#[test]
fn values_out_of_range_are_pinned_to_the_nearest_end() {
    assert_eq!(saturate(5), 5);
    assert_eq!(saturate(-5), -5);
    assert_eq!(saturate(i64::MAX as i128 + 1), i64::MAX);
    assert_eq!(saturate(i64::MIN as i128 - 1), i64::MIN);
    assert_eq!(saturate(i128::MAX), i64::MAX);
    assert_eq!(saturate(i128::MIN), i64::MIN);
    assert_eq!(magnitude(i64::MIN), 1 << 63);
    assert_eq!(magnitude(-3), 3);
    assert_eq!(magnitude(3), 3);
    assert_eq!(wide_mul(i64::MIN, i64::MIN), 1 << 126);
    assert_eq!(wide_mul(i64::MIN, i64::MAX), -(1i128 << 126) + (1i128 << 63));
}

#[test]
fn scaled_product_rounds_down_and_saturates() {
    assert_eq!(mul_div(7, 3, 2), 10);
    assert_eq!(mul_div(-7, 3, 2), -11);
    assert_eq!(mul_div(100_000, 150, 1000), 15_000);
    assert_eq!(mul_div(i64::MAX, i64::MAX, 1), i64::MAX);
    assert_eq!(mul_div(i64::MAX, i64::MIN, 1), i64::MIN);
    assert_eq!(mul_div(i64::MAX, 1000, 1000), i64::MAX);
    assert_eq!(mul_div(i64::MIN, i64::MIN, i64::MAX), i64::MAX);
}

#[test]
fn vector_sums_saturate() {
    let a = Vec2::new(i64::MAX, i64::MIN);
    assert_eq!(a.plus(Vec2::new(1, -1)), a);
    assert_eq!(a.minus(Vec2::new(-1, 1)), a);
    assert_eq!(Vec2::new(3, 4).plus(Vec2::new(-5, 6)), Vec2::new(-2, 10));
    assert_eq!(Vec2::new(3, 4).minus(Vec2::new(-5, 6)), Vec2::new(8, -2));
    assert_eq!(Vec2::new(i64::MIN, -7).abs(), Vec2::new(i64::MAX, 7));
    assert_eq!(Vec2::zero(), Vec2::new(0, 0));
    assert_eq!(Vec2::pixels(-3, 7), Vec2::new(-3_000, 7_000));
}

#[test]
fn midpoint_rounds_down() {
    assert_eq!(Vec2::new(0, 0).midpoint(Vec2::new(10, -10)), Vec2::new(5, -5));
    assert_eq!(Vec2::new(0, 0).midpoint(Vec2::new(1, -1)), Vec2::new(0, -1));
    assert_eq!(Vec2::new(i64::MAX, i64::MIN).midpoint(Vec2::new(i64::MAX, i64::MIN)), Vec2::new(i64::MAX, i64::MIN));
    assert_eq!(Vec2::new(i64::MAX, 0).midpoint(Vec2::new(i64::MIN, 0)), Vec2::new(-1, 0));
}

#[test]
fn length_rounds_down() {
    assert_eq!(Vec2::new(3_000, -4_000).length(), 5_000);
    assert_eq!(Vec2::new(1, 1).length(), 1);
    assert_eq!(Vec2::new(0, 0).length(), 0);
    assert_eq!(Vec2::new(0, i64::MIN).length(), i64::MAX);
    assert_eq!(Vec2::new(i64::MAX, i64::MAX).length(), i64::MAX);
    assert_eq!(Vec2::new(3, 4).norm_sq(), 25);
    assert_eq!(Vec2::new(i64::MIN, i64::MIN).norm_sq(), 1 << 127);
}

#[test]
fn scaling_rounds_each_component_down() {
    assert_eq!(Vec2::new(100_000, -100_000).scaled(150, 1000), Vec2::new(15_000, -15_000));
    assert_eq!(Vec2::new(1, -1).scaled(1, 2), Vec2::new(0, -1));
    assert_eq!(Vec2::new(7, 7).scaled(-1, 1), Vec2::new(-7, -7));
}

#[test]
fn heading_is_the_unit_vector_rounded_towards_zero() {
    assert_eq!(Vec2::new(5, 0).heading(), Direction::new(1_000_000, 0));
    assert_eq!(Vec2::new(0, -5).heading(), Direction::new(0, -1_000_000));
    assert_eq!(Vec2::new(3, 4).heading(), Direction::new(600_000, 800_000));
    assert_eq!(Vec2::new(-30_000, 40_000).heading(), Direction::new(-600_000, 800_000));
    assert_eq!(Vec2::new(1, 1).heading(), Direction::new(707_106, 707_106));
    assert_eq!(Vec2::new(-1, -1).heading(), Direction::new(-707_106, -707_106));
    assert_eq!(Vec2::new(1000, 10).heading(), Direction::new(999_950, 9_999));
    // The zero vector is given the heading of the x axis.
    assert_eq!(Vec2::new(0, 0).heading(), Direction::new(1_000_000, 0));
}

#[test]
fn heading_of_a_huge_vector_is_taken_from_the_shortened_vector() {
    assert_eq!(Vec2::new(i64::MAX, 0).heading(), Direction::new(1_000_000, 0));
    assert_eq!(Vec2::new(i64::MIN, i64::MIN).heading(), Direction::new(-707_106, -707_106));
    assert_eq!(Vec2::new(3 << 50, 4 << 50).heading(), Direction::new(600_000, 800_000));
    // A hair off the x axis: the x component falls just short of one.
    assert_eq!(Vec2::new(1 << 43, -1).heading(), Direction::new(999_999, 0));
    assert_eq!(Vec2::new((1 << 43) - 1, -1).heading(), Direction::new(999_999, 0));
    assert_eq!(Vec2::new(0, 1 << 62).heading(), Direction::new(0, 1_000_000));
}

#[test]
fn reduced_vector_keeps_small_vectors_and_shortens_large_ones() {
    assert_eq!(Vec2::new(5, -6).reduced(), Vec2::new(5, -6));
    assert_eq!(Vec2::new((1 << 43) - 1, 0).reduced(), Vec2::new((1 << 43) - 1, 0));
    assert_eq!(Vec2::new(1 << 43, 5).reduced(), Vec2::new(1 << 22, 0));
    assert_eq!(Vec2::new(-(1 << 43), -5).reduced(), Vec2::new(-(1 << 22), -1));
}

#[test]
fn rotation_turns_vectors_and_composes() {
    let quarter = Direction::new(0, 1_000_000);
    assert_eq!(quarter.rotate(Vec2::new(10, 0)), Vec2::new(0, 10));
    assert_eq!(quarter.rotate(Vec2::new(0, 10)), Vec2::new(-10, 0));
    assert_eq!(quarter.inverse(), Direction::new(0, -1_000_000));
    assert_eq!(quarter.inverse().rotate(Vec2::new(0, 10)), Vec2::new(10, 0));
    assert_eq!(quarter.followed_by(quarter), Direction::new(-1_000_000, 0));
    assert_eq!(Direction::identity().followed_by(quarter), quarter);
    assert_eq!(quarter.followed_by(Direction::identity()), quarter);
    assert_eq!(Direction::identity().rotate(Vec2::new(-7, 9)), Vec2::new(-7, 9));
    let slanted = Direction::new(600_000, 800_000);
    assert_eq!(slanted.rotate(Vec2::new(10_000, 0)), Vec2::new(6_000, 8_000));
    assert_eq!(slanted.rotate(Vec2::new(0, 10_000)), Vec2::new(-8_000, 6_000));
    assert_eq!(slanted.followed_by(slanted.inverse()), Direction::new(1_000_000, 0));
}

#[test]
fn direction_measures_and_spans() {
    let slanted = Direction::new(600_000, 800_000);
    assert_eq!(slanted.along(10_000), Vec2::new(6_000, 8_000));
    assert_eq!(slanted.along(-10_000), Vec2::new(-6_000, -8_000));
    assert_eq!(slanted.dot(Vec2::new(10_000, 0)), 6_000);
    assert_eq!(slanted.dot(Vec2::new(6_000, 8_000)), 10_000);
    assert_eq!(slanted.dot(Vec2::new(-8_000, 6_000)), 0);
    assert_eq!(Direction::new(0, 1_000_000).arc_from_y(), Direction::new(1_000_000, 0));
    assert_eq!(Direction::new(1_000_000, 0).arc_from_y(), Direction::new(0, -1_000_000));
    assert_eq!(Direction::new(1_000_000, 0).arc_from_y().rotate(Vec2::new(0, 5)), Vec2::new(5, 0));
}

#[test]
fn transforms_are_built_step_by_step() {
    let t = Transform::from_translation(Vec2::new(1, 2))
        .with_rotation(Direction::new(0, 1_000_000))
        .with_scale(Vec2::new(3, 4));
    assert_eq!(t.translation, Vec2::new(1, 2));
    assert_eq!(t.rotation, Direction::new(0, 1_000_000));
    assert_eq!(t.scale, Vec2::new(3, 4));
    assert_eq!(Transform::default(), Transform::identity());
    assert_eq!(Transform::identity().scale, Vec2::new(1000, 1000));
    assert_eq!(Transform::identity().rotation, Direction::identity());
}
