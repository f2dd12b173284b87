use side_effect_core::fixed::{Pose, Vec2Fix};
use side_effect_core::locomotion::{
    edge_effects, execute_jump, horizontal_move, move_player, side_probe_directions, snap_to_right_angle,
    apply_spin, schedule_spin, BodyState, InputKeys, ProbeHit, TickProbes,
};
use side_effect_core::player::Player;
use side_effect_core::side_effect::SideEffect;

const DT: i64 = 16;

fn no_keys() -> InputKeys {
    InputKeys {
        left_pressed: false,
        right_pressed: false,
        spin_up_just_pressed: false,
        spin_down_just_pressed: false,
        jump_pressed: false,
    }
}

fn resting_body() -> BodyState {
    BodyState {
        pose: Pose { translation: Vec2Fix { x: 0, y: 0 }, angle: 0, rot_cos: 1000, rot_sin: 0 },
        linvel: Vec2Fix { x: 0, y: 0 },
        angvel: 0,
        mass: 1000,
        inertia: 1000,
    }
}

fn gravity_down() -> Vec2Fix {
    Vec2Fix { x: 0, y: -1000 }
}

fn no_probes() -> TickProbes {
    TickProbes { below: None, right: None, left: None, sides: [None; 4] }
}

fn hit(entity: u64, toi: i64) -> Option<ProbeHit> {
    Some(ProbeHit { entity, toi })
}

#[test]
fn horizontal_move_steers_toward_the_input() {
    // Right key held from rest: the correction is clamped to
    // max_acceleration * dt = 14.0 * 0.016 = 0.224, then halved by the
    // coasting damping (not landed), times mass 1.0: impulse 0.112.
    let mut p = Player::new(0);
    let keys = InputKeys { right_pressed: true, ..no_keys() };
    let imp = horizontal_move(&mut p, &keys, &resting_body(), gravity_down(), DT);
    assert_eq!(imp, Vec2Fix { x: 112, y: 0 });
    assert!(p.moving_state.is_active);
}

#[test]
fn horizontal_move_at_full_strength_when_landed() {
    let mut p = Player::new(0);
    p.landed_state.is_active = true;
    p.landed_state.time_since_changed = 500;
    let keys = InputKeys { left_pressed: true, ..no_keys() };
    let imp = horizontal_move(&mut p, &keys, &resting_body(), gravity_down(), DT);
    // Same clamp, full multiplier, leftward.
    assert_eq!(imp, Vec2Fix { x: -224, y: 0 });
}

#[test]
fn no_braking_on_ice_without_input() {
    // Target lateral velocity 0 with slippery footing active: no
    // corrective impulse at all, although the body is still moving.
    let mut p = Player::new(0);
    p.slippery_below_state.is_active = true;
    p.slippery_below_state.time_since_changed = 100;
    let body = BodyState { linvel: Vec2Fix { x: 1800, y: 0 }, ..resting_body() };
    let imp = horizontal_move(&mut p, &no_keys(), &body, gravity_down(), DT);
    assert_eq!(imp, Vec2Fix { x: 0, y: 0 });
}

#[test]
fn braking_still_happens_off_ice() {
    let mut p = Player::new(0);
    let body = BodyState { linvel: Vec2Fix { x: 1800, y: 0 }, ..resting_body() };
    let imp = horizontal_move(&mut p, &no_keys(), &body, gravity_down(), DT);
    assert!(imp.x < 0);
}

#[test]
fn landing_follows_the_below_probe() {
    // Player at rest, no input, probe below hits at 0.01 < tolerance:
    // after one tick the player is landed and not in the air.
    let mut p = Player::new(0);
    p.in_air_state.is_active = true;
    p.in_air_state.time_since_changed = 300;
    let probes = TickProbes { below: hit(42, 10), ..no_probes() };
    let out = move_player(&mut p, &no_keys(), &resting_body(), gravity_down(), &probes, DT);
    assert!(p.landed_state.is_active);
    assert!(!p.in_air_state.is_active);
    assert_eq!(out.impulse, Vec2Fix { x: 0, y: 0 });
    assert_eq!(out.torque_impulse, 0);
}

#[test]
fn leaving_the_ground_follows_the_below_probe() {
    let mut p = Player::new(0);
    p.landed_state.is_active = true;
    p.landed_state.time_since_changed = 300;
    let out = move_player(&mut p, &no_keys(), &resting_body(), gravity_down(), &no_probes(), DT);
    assert!(!p.landed_state.is_active);
    assert!(p.in_air_state.is_active);
    assert_eq!(out.impulse, Vec2Fix { x: 0, y: 0 });
}

#[test]
fn jump_fires_with_exact_upward_impulse() {
    // Landed long enough, jump debounce elapsed: the jump fires with
    // impulse -gravity * 4.0 * mass, resets the jump timer, and flips
    // the landed/in-air flags.
    let mut p = Player::new(0);
    p.landed_state.is_active = true;
    p.landed_state.time_since_changed = 60;
    p.time_since_last_jump = 1000;
    let keys = InputKeys { jump_pressed: true, ..no_keys() };
    let probes = TickProbes { below: hit(42, 10), ..no_probes() };
    let out = move_player(&mut p, &keys, &resting_body(), gravity_down(), &probes, DT);
    assert_eq!(out.impulse, Vec2Fix { x: 0, y: 4000 });
    assert!(!p.landed_state.is_active);
    assert!(p.in_air_state.is_active);
    assert_eq!(p.time_since_last_jump, 0);
}

#[test]
fn jump_is_debounced_after_a_recent_jump() {
    let mut p = Player::new(0);
    p.landed_state.is_active = true;
    p.landed_state.time_since_changed = 60;
    p.time_since_last_jump = 100;  // 0.116 s after the tick: under 0.2 s
    let keys = InputKeys { jump_pressed: true, ..no_keys() };
    let probes = TickProbes { below: hit(42, 10), ..no_probes() };
    let out = move_player(&mut p, &keys, &resting_body(), gravity_down(), &probes, DT);
    assert_eq!(out.impulse, Vec2Fix { x: 0, y: 0 });
    assert!(p.landed_state.is_active);
    assert_eq!(p.time_since_last_jump, 116);
}

#[test]
fn jump_needs_grounding_or_wall_grip() {
    // Freshly landed this very tick: grounded for 0 ms, no fire.
    let mut p = Player::new(0);
    p.time_since_last_jump = 1000;
    let keys = InputKeys { jump_pressed: true, ..no_keys() };
    let probes = TickProbes { below: hit(42, 10), ..no_probes() };
    let out = move_player(&mut p, &keys, &resting_body(), gravity_down(), &probes, DT);
    assert_eq!(out.impulse, Vec2Fix { x: 0, y: 0 });
    assert!(p.landed_state.is_active);
}

#[test]
fn wall_jump_pushes_away_from_the_wall() {
    // Wall-stuck on the right: the jump gains a leftward bias of half
    // the lateral unit, so the impulse is (-0.5, 1.0) * 4.0 * mass.
    let mut p = Player::new(0);
    p.stick_to_wall_state.is_active = true;
    p.stick_to_wall_state.time_since_changed = 200;
    p.time_since_last_jump = 1000;
    let mut pr = p;
    let keys = InputKeys { jump_pressed: true, ..no_keys() };
    let probes = TickProbes { right: hit(7, 5), ..no_probes() };
    let imp = execute_jump(&mut pr, &keys, &resting_body(), gravity_down(), &probes, false);
    assert_eq!(imp, Vec2Fix { x: -2000, y: 4000 });
}

#[test]
fn spin_key_schedules_a_pending_torque_once() {
    let mut p = Player::new(0);
    let keys = InputKeys { spin_up_just_pressed: true, ..no_keys() };
    let force_jump = schedule_spin(&mut p, &keys);
    assert!(force_jump);
    assert_eq!(p.delayed_spin_torque, Some(3000));
    // A later opposite press overwrites, never stacks.
    let keys2 = InputKeys { spin_down_just_pressed: true, ..no_keys() };
    let _ = schedule_spin(&mut p, &keys2);
    assert_eq!(p.delayed_spin_torque, Some(-3000));
}

#[test]
fn spin_torque_is_consumed_only_airborne() {
    let mut p = Player::new(0);
    p.delayed_spin_torque = Some(3000);
    p.time_since_last_spin = 1000;
    // Not airborne long enough: nothing happens, latch stays.
    let t0 = apply_spin(&mut p, &resting_body());
    assert_eq!(t0, 0);
    assert_eq!(p.delayed_spin_torque, Some(3000));
    // Airborne past the grace: full torque 3.0 * inertia, consumed once.
    p.in_air_state.is_active = true;
    p.in_air_state.time_since_changed = 100;
    let t1 = apply_spin(&mut p, &resting_body());
    assert_eq!(t1, 3000);
    assert_eq!(p.delayed_spin_torque, None);
    assert_eq!(p.time_since_last_spin, 0);
}

#[test]
fn spinning_again_quickly_is_weaker() {
    let mut p = Player::new(0);
    p.delayed_spin_torque = Some(3000);
    p.time_since_last_spin = 100;  // within the 0.3 s anti-spam window
    p.in_air_state.is_active = true;
    p.in_air_state.time_since_changed = 100;
    let t = apply_spin(&mut p, &resting_body());
    assert_eq!(t, 1200);  // 3.0 * 0.4 * inertia
}

#[test]
fn snap_torque_pulls_toward_the_nearest_right_angle() {
    // 0.1 quarter-turn past flat, free (no stick, no recent spin):
    // delta -100 times the hard multiplier 5.0 times inertia.
    let mut p = Player::new(0);
    p.time_since_last_spin = 400;
    let body = BodyState {
        pose: Pose { translation: Vec2Fix { x: 0, y: 0 }, angle: 100, rot_cos: 988, rot_sin: 156 },
        ..resting_body()
    };
    let t = snap_to_right_angle(&p, &body, DT);
    assert_eq!(t, -500);
}

#[test]
fn snap_torque_is_softened_mid_spin() {
    let mut p = Player::new(0);
    p.time_since_last_spin = 100;  // mid-spin: soft multiplier 0.5
    let body = BodyState {
        pose: Pose { translation: Vec2Fix { x: 0, y: 0 }, angle: 100, rot_cos: 988, rot_sin: 156 },
        ..resting_body()
    };
    let t = snap_to_right_angle(&p, &body, DT);
    assert_eq!(t, -50);
}

#[test]
fn snap_damps_angular_velocity() {
    // Flat but spinning: only the damping term, 0.2 * angvel * inertia
    // * multiplier, pointing against the spin.
    let mut p = Player::new(0);
    p.time_since_last_spin = 400;
    let body = BodyState { angvel: 1000, ..resting_body() };
    // lead = 0.3 quarter-turns: predicted angle 300 rounds to 0.
    let t = snap_to_right_angle(&p, &body, DT);
    assert_eq!(t, -1000);  // -(0.2 * 1.0 * 1.0 * 5.0)
}

#[test]
fn sticky_bottom_edge_pulls_toward_the_floor() {
    let mut p = Player::new(0);
    p.effects[0] = SideEffect::Sticky;
    p.time_since_last_jump = 1000;
    let probes = TickProbes { sides: [hit(5, 20), None, None, None], ..no_probes() };
    let (imp, wall, any, slip) = edge_effects(&p, &resting_body(), &probes, DT);
    // Floor pull: 5.0 * dt * mass downward along the edge direction.
    assert_eq!(imp, Vec2Fix { x: 0, y: -80 });
    assert!(!wall);
    assert!(any);
    assert!(!slip);
}

#[test]
fn sticky_side_edge_marks_wall_stick_and_pulls_hard() {
    let mut p = Player::new(0);
    p.effects[1] = SideEffect::Sticky;
    p.time_since_last_jump = 1000;
    let probes = TickProbes { sides: [None, hit(5, 20), None, None], ..no_probes() };
    let (imp, wall, any, _slip) = edge_effects(&p, &resting_body(), &probes, DT);
    // Wall pull: 20.0 * dt * mass toward the wall on the right.
    assert_eq!(imp, Vec2Fix { x: 320, y: 0 });
    assert!(wall);
    assert!(any);
}

#[test]
fn sticking_is_suppressed_right_after_a_jump() {
    let mut p = Player::new(0);
    p.effects[0] = SideEffect::Sticky;
    p.time_since_last_jump = 10;  // within the 0.03 s grace
    let probes = TickProbes { sides: [hit(5, 20), None, None, None], ..no_probes() };
    let (imp, _wall, any, _slip) = edge_effects(&p, &resting_body(), &probes, DT);
    assert_eq!(imp, Vec2Fix { x: 0, y: 0 });
    assert!(!any);
}

#[test]
fn slippery_edge_facing_down_marks_slippery_below() {
    let mut p = Player::new(0);
    p.effects[0] = SideEffect::Slippery;
    let probes = TickProbes { sides: [hit(5, 20), None, None, None], ..no_probes() };
    let out = move_player(&mut p, &no_keys(), &resting_body(), gravity_down(), &probes, DT);
    assert!(p.slippery_below_state.is_active);
    assert_eq!(out.impulse, Vec2Fix { x: 0, y: 0 });
}

#[test]
fn shield_and_other_effects_have_no_physics_here() {
    let mut p = Player::new(0);
    p.effects = [SideEffect::Shield, SideEffect::Thorns, SideEffect::Flashlight, SideEffect::Laser];
    p.time_since_last_jump = 1000;
    let probes = TickProbes { sides: [hit(5, 20); 4], ..no_probes() };
    let (imp, wall, any, slip) = edge_effects(&p, &resting_body(), &probes, DT);
    assert_eq!(imp, Vec2Fix { x: 0, y: 0 });
    assert!(!wall && !any && !slip);
}

#[test]
fn probe_directions_rotate_with_the_body() {
    // A quarter turn counterclockwise carries the bottom edge's outward
    // direction onto the world right, and the right edge's onto up.
    let pose = Pose { translation: Vec2Fix { x: 0, y: 0 }, angle: 1000, rot_cos: 0, rot_sin: 1000 };
    let dirs = side_probe_directions(&pose);
    assert_eq!(dirs[0], Vec2Fix { x: 1000, y: 0 });
    assert_eq!(dirs[1], Vec2Fix { x: 0, y: 1000 });
    assert_eq!(dirs[2], Vec2Fix { x: -1000, y: 0 });
    assert_eq!(dirs[3], Vec2Fix { x: 0, y: -1000 });
}

#[test]
fn timers_accumulate_each_tick() {
    let mut p = Player::new(0);
    p.time_since_last_jump = 500;
    let _ = move_player(&mut p, &no_keys(), &resting_body(), gravity_down(), &no_probes(), DT);
    assert_eq!(p.time_since_last_jump, 516);
    assert_eq!(p.time_since_last_spin, 16);
    assert_eq!(p.moving_state.time_since_changed, 16);
}
