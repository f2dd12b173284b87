use side_effect_core::fixed::{Pose, Vec2Fix};
use side_effect_core::locomotion::BodyState;
use side_effect_core::monster::{
    monster_impulse, monster_target_velocity, move_monster, Monster,
};

const DT: i64 = 16;

fn body_with_velocity(x: i64, vx: i64) -> BodyState {
    BodyState {
        pose: Pose { translation: Vec2Fix { x, y: 0 }, angle: 0, rot_cos: 1000, rot_sin: 0 },
        linvel: Vec2Fix { x: vx, y: 0 },
        angvel: 0,
        mass: 1000,
        inertia: 1000,
    }
}

fn gravity_down() -> Vec2Fix {
    Vec2Fix { x: 0, y: -1000 }
}

#[test]
fn hunter_steers_toward_the_player() {
    // Monster right of the player: target -2.0, correction clamped to
    // 12.0 * 0.016 = 0.192, times mass 1.0.
    let m = Monster { patrol: false };
    let (imp, state) = move_monster(&m, &body_with_velocity(5000, 0), 0, gravity_down(), DT);
    assert_eq!(imp, Vec2Fix { x: -192, y: 0 });
    assert_eq!(state, 0);

    // Monster left of the player: target +2.0.
    let (imp2, _) = move_monster(&m, &body_with_velocity(-5000, 0), 0, gravity_down(), DT);
    assert_eq!(imp2, Vec2Fix { x: 192, y: 0 });
}

#[test]
fn patroller_clearly_moving_keeps_its_direction() {
    let m = Monster { patrol: true };
    // Clearly moving right at the target speed: no correction needed.
    let (imp, state) = move_monster(&m, &body_with_velocity(0, 2000), 0, gravity_down(), DT);
    assert_eq!(imp, Vec2Fix { x: 0, y: 0 });
    assert_eq!(state, 0);
    // Clearly moving left at the target speed: no correction either,
    // and the material state reports leftward movement.
    let (imp2, state2) = move_monster(&m, &body_with_velocity(0, -2000), 0, gravity_down(), DT);
    assert_eq!(imp2, Vec2Fix { x: 0, y: 0 });
    assert_eq!(state2, 1);
}

#[test]
fn stopped_patroller_turns_one_way_or_the_other() {
    // Nearly stopped: the direction comes from a random draw, so the
    // impulse is one of the two clamped corrections and nothing else.
    let m = Monster { patrol: true };
    let (imp, _) = move_monster(&m, &body_with_velocity(0, 0), 0, gravity_down(), DT);
    assert!(imp == Vec2Fix { x: 192, y: 0 } || imp == Vec2Fix { x: -192, y: 0 });
}

#[test]
fn target_velocity_table() {
    // Patrol: moving right fast keeps right regardless of the coin.
    assert_eq!(monster_target_velocity(true, 2000, 0, 0, false), 2000);
    assert_eq!(monster_target_velocity(true, 2000, 0, 0, true), 2000);
    // Patrol, nearly stopped: the coin decides.
    assert_eq!(monster_target_velocity(true, 0, 0, 0, true), 2000);
    assert_eq!(monster_target_velocity(true, 0, 0, 0, false), -2000);
    // Patrol, moving left fast: keeps left regardless of the coin.
    assert_eq!(monster_target_velocity(true, -2000, 0, 0, true), -2000);
    // Hunting ignores the coin entirely.
    assert_eq!(monster_target_velocity(false, 0, 100, 0, true), -2000);
    assert_eq!(monster_target_velocity(false, 0, -100, 0, false), 2000);
}

#[test]
fn monster_correction_is_clamped_and_scaled_by_mass() {
    let body = BodyState { mass: 2000, ..body_with_velocity(0, 0) };
    let imp = monster_impulse(2000, &body, gravity_down(), DT);
    // clamp(2.0, 0.192) * mass 2.0 = 0.384.
    assert_eq!(imp, Vec2Fix { x: 384, y: 0 });
}
