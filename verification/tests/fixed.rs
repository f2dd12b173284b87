use side_effect_core::fixed::{
    clamp_i64, div_trunc, mul_milli, rem_euclid_i64, round_to_multiple, Pose, Vec2Fix,
};

#[test]
fn truncated_division_rounds_toward_zero() {
    assert_eq!(div_trunc(7, 2), 3);
    assert_eq!(div_trunc(-7, 2), -3);
    assert_eq!(div_trunc(999, 1000), 0);
    assert_eq!(div_trunc(-999, 1000), 0);
}

#[test]
fn fixed_point_products_scale_back() {
    assert_eq!(mul_milli(1500, 1500), 2250);  // 1.5 * 1.5 = 2.25
    assert_eq!(mul_milli(-1500, 1500), -2250);
    assert_eq!(mul_milli(1, 999), 0);
}

#[test]
fn clamping_is_exact() {
    assert_eq!(clamp_i64(5, -2, 2), 2);
    assert_eq!(clamp_i64(-5, -2, 2), -2);
    assert_eq!(clamp_i64(1, -2, 2), 1);
}

#[test]
fn angle_normalization_is_euclidean() {
    assert_eq!(rem_euclid_i64(4100, 4000), 100);
    assert_eq!(rem_euclid_i64(-300, 4000), 3700);
    assert_eq!(rem_euclid_i64(-4000, 4000), 0);
    assert_eq!(rem_euclid_i64(0, 4000), 0);
}

#[test]
fn rounding_to_right_angles_takes_halves_away_from_zero() {
    assert_eq!(round_to_multiple(1499, 1000), 1000);
    assert_eq!(round_to_multiple(1500, 1000), 2000);
    assert_eq!(round_to_multiple(-1499, 1000), -1000);
    assert_eq!(round_to_multiple(-1500, 1000), -2000);
    assert_eq!(round_to_multiple(0, 1000), 0);
}

#[test]
fn vector_algebra_matches_the_conventions() {
    let v = Vec2Fix { x: 300, y: -400 };
    assert_eq!(v.perp(), Vec2Fix { x: 400, y: 300 });
    assert_eq!(v.neg(), Vec2Fix { x: -300, y: 400 });
    assert_eq!(v.add(Vec2Fix { x: 1, y: 2 }), Vec2Fix { x: 301, y: -398 });
    assert_eq!(v.scale(500), Vec2Fix { x: 150, y: -200 });
    // Dot with a unit vector extracts the component along it.
    assert_eq!(v.dot(Vec2Fix { x: 1000, y: 0 }), 300);
    assert_eq!(v.dist2(Vec2Fix { x: 0, y: 0 }), 250_000);
}

#[test]
fn rotation_by_a_quarter_turn_is_exact() {
    let v = Vec2Fix { x: 1000, y: 0 };
    assert_eq!(v.rotate(0, 1000), Vec2Fix { x: 0, y: 1000 });
    assert_eq!(v.rotate(-1000, 0), Vec2Fix { x: -1000, y: 0 });
    assert_eq!(v.rotate(0, -1000), Vec2Fix { x: 0, y: -1000 });
}

#[test]
fn transform_carries_local_points_to_world() {
    let pose = Pose {
        translation: Vec2Fix { x: 3000, y: -1250 },
        angle: 0,
        rot_cos: 1000,
        rot_sin: 0,
    };
    assert_eq!(
        pose.transform_point(Vec2Fix { x: 0, y: -500 }),
        Vec2Fix { x: 3000, y: -1750 }
    );
    let turned = Pose { translation: Vec2Fix { x: 0, y: 0 }, angle: 1000, rot_cos: 0, rot_sin: 1000 };
    assert_eq!(turned.transform_point(Vec2Fix { x: 0, y: -500 }), Vec2Fix { x: 500, y: 0 });
}
