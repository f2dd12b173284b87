//! The per-tick player locomotion controller: turns one tick's input
//! keys and physics feedback into impulse and torque corrections and
//! the next player state.
//!
//! The controller runs these phases in order, exactly once per fixed
//! simulation tick: timer advance, horizontal move, jump-trigger
//! latch, spin torque, orientation snap, jump execution, per-edge
//! effect resolution, and the commit of the three derived stick/slip
//! flags. Contact probes are swept casts owned by the physics engine;
//! their results for this tick arrive as plain inputs, and the
//! directions to cast along come from [`side_probe_directions`].

use vstd::prelude::*;

use crate::fixed::{
    clamp_i64, clamp_spec, div_trunc, in_box, lemma_mul_bound, lemma_tdiv_bound, mul_milli,
    mul_scale, rem_euclid_i64, round_to_multiple, round_to_multiple_spec, tdiv, Pose, Vec2Fix,
    FULL_TURN, SCALE,
};
use crate::player::Player;
use crate::player_state::{DT_MAX, TIME_MAX};
use crate::side_effect::SideEffect;
use crate::shape::MAX_SIDES;

verus! {

/// One tick's snapshot of the discrete input keys.
#[derive(Clone, Copy, Debug, PartialEq, Eq, Structural)]
pub struct InputKeys {
    /// The move-left key is held.
    pub left_pressed: bool,
    /// The move-right key is held.
    pub right_pressed: bool,
    /// The spin-up key went down this tick.
    pub spin_up_just_pressed: bool,
    /// The spin-down key went down this tick.
    pub spin_down_just_pressed: bool,
    /// The jump key is held.
    pub jump_pressed: bool,
}

/// The physics engine's view of the player's body for this tick.
#[derive(Clone, Copy, Debug, PartialEq, Eq, Structural)]
pub struct BodyState {
    /// Position and orientation of the body.
    pub pose: Pose,
    /// Linear velocity, in milli-units per second.
    pub linvel: Vec2Fix,
    /// Angular velocity, in milli-quarter-turns per second.
    pub angvel: i64,
    /// Mass of the body, in milli-units.
    pub mass: i64,
    /// Principal inertia of the body, in milli-units.
    pub inertia: i64,
}

impl BodyState {
    /// The magnitude bounds under which every tick computation stays
    /// inside `i64`.
    pub open spec fn wf(self) -> bool {
        &&& self.pose.wf()
        &&& in_box(self.linvel, 1_000_000_000)
        &&& -1_000_000_000 <= self.angvel <= 1_000_000_000
        &&& 0 <= self.mass <= 1_000_000_000
        &&& 0 <= self.inertia <= 1_000_000_000
    }
}

/// One contact-probe result: the nearest colliding entity along the
/// cast direction and its time-of-impact distance, in milli-units.
#[derive(Clone, Copy, Debug, PartialEq, Eq, Structural)]
pub struct ProbeHit {
    /// The entity the cast hit.
    pub entity: u64,
    /// Time-of-impact distance along the cast direction.
    pub toi: i64,
}

/// This tick's contact-probe results: below, to the right of and to
/// the left of the player (tolerance 0.027 units), and outward along
/// each of the four edges (tolerance 0.045 units). `None` is a miss,
/// a normal outcome, not an error.
#[derive(Clone, Copy, Debug, PartialEq, Eq)]
pub struct TickProbes {
    /// Cast along the gravity direction.
    pub below: Option<ProbeHit>,
    /// Cast along the lateral right direction.
    pub right: Option<ProbeHit>,
    /// Cast along the lateral left direction.
    pub left: Option<ProbeHit>,
    /// Casts outward along each edge, rotated by the body orientation.
    pub sides: [Option<ProbeHit>; MAX_SIDES],
}

/// The impulse and torque the controller accumulated this tick, for
/// the physics engine to integrate.
#[derive(Clone, Copy, Debug, PartialEq, Eq, Structural)]
pub struct TickOutput {
    /// Linear impulse, in milli-units.
    pub impulse: Vec2Fix,
    /// Torque impulse, in milli-units.
    pub torque_impulse: i64,
}

/// A gravity direction the controller accepts: a vector of at most
/// unit length in each component, supplied by the environment.
pub open spec fn gravity_wf(g: Vec2Fix) -> bool {
    in_box(g, SCALE as int)
}

/// The directions to cast the four edge probes along: each edge's
/// outward direction rotated by the body's current orientation.
pub fn side_probe_directions(pose: &Pose) -> (dirs: [Vec2Fix; MAX_SIDES])
    requires
        pose.wf(),
    ensures
        forall|i: int|
            0 <= i < MAX_SIDES ==> dirs@[i] == Player::side_direction_spec(i).rotate_spec(
                pose.rot_cos as int,
                pose.rot_sin as int,
            ),
{
    [
        Player::side_direction(0).rotate(pose.rot_cos, pose.rot_sin),
        Player::side_direction(1).rotate(pose.rot_cos, pose.rot_sin),
        Player::side_direction(2).rotate(pose.rot_cos, pose.rot_sin),
        Player::side_direction(3).rotate(pose.rot_cos, pose.rot_sin),
    ]
}

/// The player after all six timed flags and the two scalar counters
/// accumulated the tick's elapsed time.
pub open spec fn advance_timers_spec(p: Player, dt: i64) -> Player {
    Player {
        moving_state: p.moving_state.advance_spec(dt),
        landed_state: p.landed_state.advance_spec(dt),
        in_air_state: p.in_air_state.advance_spec(dt),
        stick_to_wall_state: p.stick_to_wall_state.advance_spec(dt),
        stick_to_anything_state: p.stick_to_anything_state.advance_spec(dt),
        slippery_below_state: p.slippery_below_state.advance_spec(dt),
        time_since_last_spin: (p.time_since_last_spin + dt) as i64,
        time_since_last_jump: (p.time_since_last_jump + dt) as i64,
        ..p
    }
}

impl Player {
    /// The player's timers can take another tick of length `dt`
    /// without leaving their range.
    pub open spec fn can_advance(self, dt: i64) -> bool {
        &&& self.wf()
        &&& self.moving_state.time_since_changed + dt <= TIME_MAX
        &&& self.landed_state.time_since_changed + dt <= TIME_MAX
        &&& self.in_air_state.time_since_changed + dt <= TIME_MAX
        &&& self.stick_to_wall_state.time_since_changed + dt <= TIME_MAX
        &&& self.stick_to_anything_state.time_since_changed + dt <= TIME_MAX
        &&& self.slippery_below_state.time_since_changed + dt <= TIME_MAX
        &&& self.time_since_last_spin + dt <= TIME_MAX
        &&& self.time_since_last_jump + dt <= TIME_MAX
    }
}

/// Advances all six timed flags and both scalar counters by `dt`.
pub fn advance_timers(p: &mut Player, dt: i64)
    requires
        old(p).can_advance(dt),
        0 <= dt <= DT_MAX,
    ensures
        *final(p) == advance_timers_spec(*old(p), dt),
        final(p).wf(),
{
    p.moving_state.advance(dt);
    p.landed_state.advance(dt);
    p.in_air_state.advance(dt);
    p.stick_to_wall_state.advance(dt);
    p.stick_to_anything_state.advance(dt);
    p.slippery_below_state.advance(dt);
    p.time_since_last_spin = p.time_since_last_spin + dt;
    p.time_since_last_jump = p.time_since_last_jump + dt;
}

/// Magnitude of `x`.
pub open spec fn abs_spec(x: int) -> int {
    if x >= 0 {
        x
    } else {
        -x
    }
}

/// One component of a corrective impulse: a direction component times
/// a velocity delta, a damping multiplier and the body mass, brought
/// back to scale after each product.
fn impulse_component(c: i64, dv: i64, multiplier: i64, mass: i64) -> (r: i64)
    requires
        -1000 <= c <= 1000,
        -100_000_000 <= dv <= 100_000_000,
        0 <= multiplier <= 1000,
        0 <= mass <= 1_000_000_000,
    ensures
        r == mul_scale(mul_scale(mul_scale(c as int, dv as int), multiplier as int), mass as int),
        -100_000_000_000_000 <= r <= 100_000_000_000_000,
{
    proof {
        lemma_mul_bound(c as int, dv as int, 1000, 100_000_000);
        lemma_tdiv_bound(c * dv, SCALE as int, 100_000_000_000);
    }
    let a = mul_milli(c, dv);
    proof {
        lemma_mul_bound(a as int, multiplier as int, 100_000_000, 1000);
        lemma_tdiv_bound(a * multiplier, SCALE as int, 100_000_000_000);
    }
    let b = mul_milli(a, multiplier);
    proof {
        lemma_mul_bound(b as int, mass as int, 100_000_000, 1_000_000_000);
        lemma_tdiv_bound(b * mass, SCALE as int, 100_000_000_000_000_000);
    }
    mul_milli(b, mass)
}

/// The player after the horizontal-move phase, which activates the
/// moving flag on input, and the linear impulse the phase applies.
pub open spec fn horizontal_move_spec(
    p: Player,
    keys: InputKeys,
    body: BodyState,
    g: Vec2Fix,
    dt: i64,
) -> (Player, Vec2Fix) {
    let right = g.perp_spec();
    let max_speed = p.max_speed_spec() as int;
    let moving = if keys.left_pressed || keys.right_pressed {
        p.moving_state.activate_spec()
    } else {
        p.moving_state
    };
    let target: int = (if keys.left_pressed { -max_speed } else { 0 }) + (if keys.right_pressed {
        max_speed
    } else {
        0
    });
    let dv0 = target - body.linvel.dot_spec(right);
    let bonus = clamp_spec(tdiv((abs_spec(dv0) - max_speed) * SCALE as int, max_speed), 0, 2000);
    let limit = mul_scale(mul_scale(14000, dt as int), 1000 + bonus);
    let dv = clamp_spec(dv0, -limit, limit);
    let since_released = moving.time_since_deactivated_spec() as int;
    let multiplier: int = if since_released < 200 && p.landed_state.is_active {
        1000
    } else {
        1_000_000int / (2000 + 2 * since_released)
    };
    let imp = if target != 0 || !p.slippery_below_state.is_active {
        Vec2Fix {
            x: mul_scale(mul_scale(mul_scale(right.x as int, dv), multiplier), body.mass as int)
                as i64,
            y: mul_scale(mul_scale(mul_scale(right.y as int, dv), multiplier), body.mass as int)
                as i64,
        }
    } else {
        Vec2Fix { x: 0, y: 0 }
    };
    (Player { moving_state: moving, ..p }, imp)
}

/// Horizontal-move phase: steers the lateral velocity component toward
/// the input's target speed with a clamped, damped corrective impulse.
/// With no input on a slippery footing no impulse at all is applied,
/// so the player coasts on ice even while sliding.
pub fn horizontal_move(
    p: &mut Player,
    keys: &InputKeys,
    body: &BodyState,
    g: Vec2Fix,
    dt: i64,
) -> (imp: Vec2Fix)
    requires
        old(p).wf(),
        body.wf(),
        gravity_wf(g),
        0 <= dt <= DT_MAX,
    ensures
        (*final(p), imp) == horizontal_move_spec(*old(p), *keys, *body, g, dt),
        final(p).wf(),
        in_box(imp, 100_000_000_000_000),
        keys.left_pressed == keys.right_pressed && old(p).slippery_below_state.is_active ==> imp
            == (Vec2Fix { x: 0, y: 0 }),
{
    let right = g.perp();
    let mut target: i64 = 0;

    if keys.left_pressed {
        p.moving_state.activate();
        target = target - p.get_max_speed();
    }
    if keys.right_pressed {
        p.moving_state.activate();
        target = target + p.get_max_speed();
    }
    proof {
        assert(p.moving_state == (if keys.left_pressed || keys.right_pressed {
            old(p).moving_state.activate_spec()
        } else {
            old(p).moving_state
        }));
        lemma_mul_bound(body.linvel.x as int, right.x as int, 1_000_000_000, 1000);
        lemma_mul_bound(body.linvel.y as int, right.y as int, 1_000_000_000, 1000);
        lemma_tdiv_bound(
            body.linvel.x * right.x + body.linvel.y * right.y,
            SCALE as int,
            2_000_000_000_000,
        );
    }
    let lateral = body.linvel.dot(right);
    let dv0 = target - lateral;

    let max_speed = p.get_max_speed();
    let abs_dv0 = if dv0 >= 0 {
        dv0
    } else {
        -dv0
    };
    let bonus = clamp_i64(div_trunc((abs_dv0 - max_speed) * SCALE, max_speed), 0, 2000);

    let l1 = mul_milli(14000, dt);
    proof {
        lemma_tdiv_bound(14000 * dt as int, SCALE as int, 14_000_000_000);
        vstd::arithmetic::div_mod::lemma_div_pos_is_pos(14000 * dt as int, SCALE as int);
    }
    let limit = mul_milli(l1, 1000 + bonus);
    proof {
        lemma_mul_bound(l1 as int, 1000 + bonus as int, 14_000_000, 3000);
        lemma_tdiv_bound(l1 * (1000 + bonus), SCALE as int, 42_000_000_000);
        vstd::arithmetic::div_mod::lemma_div_pos_is_pos(l1 * (1000 + bonus), SCALE as int);
        vstd::arithmetic::mul::lemma_mul_nonnegative(l1 as int, 1000 + bonus as int);
    }
    let dv = clamp_i64(dv0, -limit, limit);

    let since_released = p.moving_state.time_since_deactivated();
    let multiplier: i64 = if since_released < 200 && p.landed_state.is_active {
        1000
    } else {
        proof {
            vstd::arithmetic::div_mod::lemma_div_is_ordered_by_denominator(
                1_000_000,
                2000,
                2000 + 2 * since_released as int,
            );
            vstd::arithmetic::div_mod::lemma_div_pos_is_pos(
                1_000_000,
                2000 + 2 * since_released as int,
            );
        }
        1_000_000 / (2000 + 2 * since_released)
    };

    if target != 0 || !p.slippery_below_state.is_active {
        Vec2Fix {
            x: impulse_component(right.x, dv, multiplier, body.mass),
            y: impulse_component(right.y, dv, multiplier, body.mass),
        }
    } else {
        Vec2Fix { x: 0, y: 0 }
    }
}

/// The player after the jump-trigger latch, and whether a spin key
/// schedules a jump this tick.
pub open spec fn schedule_spin_spec(p: Player, keys: InputKeys) -> (Player, bool) {
    if keys.spin_up_just_pressed {
        (Player { delayed_spin_torque: Some(3000i64), ..p }, true)
    } else if keys.spin_down_just_pressed {
        (Player { delayed_spin_torque: Some(-3000i64), ..p }, true)
    } else {
        (p, false)
    }
}

/// Jump-trigger latch: a spin-up key schedules a positive spin torque,
/// a spin-down key a negative one; at most one is pending and a new
/// press overwrites it. Either press also forces a jump attempt this
/// tick, which the returned flag reports.
pub fn schedule_spin(p: &mut Player, keys: &InputKeys) -> (force_jump: bool)
    requires
        old(p).wf(),
    ensures
        (*final(p), force_jump) == schedule_spin_spec(*old(p), *keys),
        final(p).wf(),
{
    if keys.spin_up_just_pressed {
        p.delayed_spin_torque = Some(3000);
        true
    } else if keys.spin_down_just_pressed {
        p.delayed_spin_torque = Some(-3000);
        true
    } else {
        false
    }
}

/// The player after the spin phase and the torque impulse it applies:
/// while airborne past a short grace, the pending spin torque is
/// consumed once, at reduced strength if a spin happened recently.
pub open spec fn spin_spec(p: Player, body: BodyState) -> (Player, int) {
    if p.in_air_state.time_since_activated_spec() > 20 {
        match p.delayed_spin_torque {
            Some(t) => {
                let torque = if p.time_since_last_spin < 300 {
                    mul_scale(mul_scale(t as int, 400), body.inertia as int)
                } else {
                    mul_scale(t as int, body.inertia as int)
                };
                (Player { delayed_spin_torque: None, time_since_last_spin: 0, ..p }, torque)
            },
            Option::None => (p, 0),
        }
    } else {
        (p, 0)
    }
}

/// Spin phase: only after more than 0.02 s in the air, consumes the
/// pending spin torque; a spin within the last 0.3 s reduces the
/// strength to 0.4 of the full torque.
pub fn apply_spin(p: &mut Player, body: &BodyState) -> (torque: i64)
    requires
        old(p).wf(),
        body.wf(),
    ensures
        (*final(p), torque as int) == spin_spec(*old(p), *body),
        final(p).wf(),
        -1_000_000_000_000_000 <= torque <= 1_000_000_000_000_000,
{
    let mut torque: i64 = 0;
    if p.in_air_state.time_since_activated() > 20 {
        if let Some(t) = p.delayed_spin_torque.take() {
            if p.time_since_last_spin < 300 {
                let reduced = mul_milli(t, 400);
                proof {
                    lemma_mul_bound(t as int, 400, 1_000_000, 400);
                    lemma_tdiv_bound(t * 400, SCALE as int, 400_000_000);
                    lemma_mul_bound(mul_scale(t as int, 400), body.inertia as int, 400_000, 1_000_000_000);
                    lemma_tdiv_bound(mul_scale(t as int, 400) * body.inertia, SCALE as int, 400_000_000_000_000_000);
                }
                torque = mul_milli(reduced, body.inertia);
            } else {
                proof {
                    lemma_mul_bound(t as int, body.inertia as int, 1_000_000, 1_000_000_000);
                    lemma_tdiv_bound(t * body.inertia, SCALE as int, 1_000_000_000_000_000);
                }
                torque = mul_milli(t, body.inertia);
            }
            p.time_since_last_spin = 0;
        }
    }
    torque
}

/// The torque impulse of the orientation-snap phase: a clamped
/// corrective torque toward the nearest right angle, predicted a short
/// time ahead by the angular velocity, minus an angular damping
/// torque; both are softened while wall-stuck or mid-spin and
/// hardened when free.
pub open spec fn snap_torque_spec(p: Player, body: BodyState, dt: i64) -> int {
    let angle = body.pose.angle as int % FULL_TURN as int;
    let lead = mul_scale(body.angvel as int, 300);
    let target = round_to_multiple_spec(angle + lead, SCALE as int);
    let limit = 2 * mul_scale(35000, dt as int);
    let delta = clamp_spec(target - angle, -limit, limit);
    let multiplier: int = if p.stick_to_anything_state.time_since_activated_spec() > 100
        || p.time_since_last_spin < 200 {
        500
    } else {
        5000
    };
    mul_scale(mul_scale(delta, multiplier), body.inertia as int) - mul_scale(
        mul_scale(mul_scale(200, body.angvel as int), multiplier),
        body.inertia as int,
    )
}

/// Orientation-snap phase: computes the torque toward the nearest
/// multiple of a quarter turn, as [`snap_torque_spec`] states.
pub fn snap_to_right_angle(p: &Player, body: &BodyState, dt: i64) -> (torque: i64)
    requires
        p.wf(),
        body.wf(),
        0 <= dt <= DT_MAX,
    ensures
        torque as int == snap_torque_spec(*p, *body, dt),
        -2_000_000_000_000_000 <= torque <= 2_000_000_000_000_000,
{
    let angle = rem_euclid_i64(body.pose.angle, FULL_TURN);
    let lead = mul_milli(body.angvel, 300);
    proof {
        lemma_tdiv_bound(body.angvel * 300, SCALE as int, 300_000_000_000);
    }
    let target = round_to_multiple(angle + lead, SCALE);
    let l1 = mul_milli(35000, dt);
    proof {
        lemma_tdiv_bound(35000 * dt as int, SCALE as int, 35_000_000_000);
        vstd::arithmetic::div_mod::lemma_div_pos_is_pos(35000 * dt as int, SCALE as int);
    }
    let limit = 2 * l1;
    let delta = clamp_i64(target - angle, -limit, limit);

    let multiplier: i64 = if p.stick_to_anything_state.time_since_activated() > 100
        || p.time_since_last_spin < 200 {
        500
    } else {
        5000
    };

    proof {
        lemma_mul_bound(delta as int, multiplier as int, 70_000_000, 5000);
        lemma_tdiv_bound(delta * multiplier, SCALE as int, 350_000_000_000);
    }
    let c1 = mul_milli(delta, multiplier);
    proof {
        lemma_mul_bound(c1 as int, body.inertia as int, 350_000_000, 1_000_000_000);
        lemma_tdiv_bound(c1 * body.inertia, SCALE as int, 350_000_000_000_000_000);
    }
    let correction = mul_milli(c1, body.inertia);

    let d1 = mul_milli(200, body.angvel);
    proof {
        lemma_tdiv_bound(200 * body.angvel as int, SCALE as int, 200_000_000_000);
        lemma_mul_bound(mul_scale(200, body.angvel as int), multiplier as int, 200_000_000, 5000);
        lemma_tdiv_bound(mul_scale(200, body.angvel as int) * multiplier, SCALE as int, 1_000_000_000_000);
    }
    let d2 = mul_milli(d1, multiplier);
    proof {
        lemma_mul_bound(d2 as int, body.inertia as int, 1_000_000_000, 1_000_000_000);
        lemma_tdiv_bound(d2 * body.inertia, SCALE as int, 1_000_000_000_000_000_000);
    }
    let damping = mul_milli(d2, body.inertia);

    correction - damping
}

/// The player after the jump phase and the linear impulse it applies.
/// The landed and in-air flags always follow this tick's below probe
/// first; a jump then fires only on input, only after being landed or
/// wall-stuck for more than 0.05 s, and only more than 0.2 s after the
/// previous jump. A fired jump points away from gravity, biased
/// sideways off a detected wall, and resets the jump timer.
pub open spec fn jump_spec(
    p: Player,
    keys: InputKeys,
    body: BodyState,
    g: Vec2Fix,
    probes: TickProbes,
    force_jump: bool,
) -> (Player, Vec2Fix) {
    let p1 = if probes.below is Some {
        Player {
            landed_state: p.landed_state.activate_spec(),
            in_air_state: p.in_air_state.deactivate_spec(),
            ..p
        }
    } else {
        Player {
            landed_state: p.landed_state.deactivate_spec(),
            in_air_state: p.in_air_state.activate_spec(),
            ..p
        }
    };
    if (keys.jump_pressed || force_jump) && (p1.landed_state.time_since_activated_spec() > 50
        || p1.stick_to_wall_state.time_since_activated_spec() > 50) && p1.time_since_last_jump
        > 200 {
        let p2 = Player {
            landed_state: p1.landed_state.deactivate_spec(),
            in_air_state: p1.in_air_state.activate_spec(),
            time_since_last_jump: 0,
            ..p1
        };
        let dir0 = g.neg_spec();
        let dir1 = if probes.right is Some && p1.stick_to_wall_state.time_since_activated_spec()
            > 50 {
            dir0.add_spec(g.perp_spec().neg_spec().scale_spec(500))
        } else {
            dir0
        };
        let dir = if probes.left is Some && p1.stick_to_wall_state.time_since_activated_spec()
            > 50 {
            dir1.add_spec(g.perp_spec().scale_spec(500))
        } else {
            dir1
        };
        let imp = Vec2Fix {
            x: mul_scale(mul_scale(dir.x as int, 4000), body.mass as int) as i64,
            y: mul_scale(mul_scale(dir.y as int, 4000), body.mass as int) as i64,
        };
        (p2, imp)
    } else {
        (p1, Vec2Fix { x: 0, y: 0 })
    }
}

/// One component of the jump impulse: direction times the jump
/// strength times the body mass.
fn jump_component(c: i64, mass: i64) -> (r: i64)
    requires
        -2100 <= c <= 2100,
        0 <= mass <= 1_000_000_000,
    ensures
        r == mul_scale(mul_scale(c as int, 4000), mass as int),
        -10_000_000_000 <= r <= 10_000_000_000,
{
    proof {
        lemma_tdiv_bound(c * 4000, SCALE as int, 8_400_000);
    }
    let a = mul_milli(c, 4000);
    proof {
        lemma_mul_bound(a as int, mass as int, 8_400, 1_000_000_000);
        lemma_tdiv_bound(a * mass, SCALE as int, 8_400_000_000_000);
    }
    mul_milli(a, mass)
}

/// Jump phase: updates the landed and in-air flags from the below
/// probe and fires a debounced jump on input, as [`jump_spec`] states.
pub fn execute_jump(
    p: &mut Player,
    keys: &InputKeys,
    body: &BodyState,
    g: Vec2Fix,
    probes: &TickProbes,
    force_jump: bool,
) -> (imp: Vec2Fix)
    requires
        old(p).wf(),
        body.wf(),
        gravity_wf(g),
    ensures
        (*final(p), imp) == jump_spec(*old(p), *keys, *body, g, *probes, force_jump),
        final(p).wf(),
        in_box(imp, 100_000_000_000),
{
    if probes.below.is_some() {
        p.landed_state.activate();
        p.in_air_state.deactivate();
    } else {
        p.landed_state.deactivate();
        p.in_air_state.activate();
    }

    if (keys.jump_pressed || force_jump) && (p.landed_state.time_since_activated() > 50
        || p.stick_to_wall_state.time_since_activated() > 50) && p.time_since_last_jump > 200 {
        let wall_grip = p.stick_to_wall_state.time_since_activated() > 50;
        p.landed_state.deactivate();
        p.in_air_state.activate();
        p.time_since_last_jump = 0;

        let mut dir = g.neg();
        proof {
            lemma_tdiv_bound(-(g.perp_spec().x as int) * 500, SCALE as int, 500_000);
            lemma_tdiv_bound(-(g.perp_spec().y as int) * 500, SCALE as int, 500_000);
            lemma_tdiv_bound(g.perp_spec().x * 500, SCALE as int, 500_000);
            lemma_tdiv_bound(g.perp_spec().y * 500, SCALE as int, 500_000);
        }
        if probes.right.is_some() && wall_grip {
            dir = dir.add(g.perp().neg().scale(500));
        }
        if probes.left.is_some() && wall_grip {
            dir = dir.add(g.perp().scale(500));
        }
        Vec2Fix { x: jump_component(dir.x, body.mass), y: jump_component(dir.y, body.mass) }
    } else {
        Vec2Fix { x: 0, y: 0 }
    }
}

/// What one edge contributes this tick: a linear impulse and its
/// votes for the wall-stick, any-stick and slippery-below flags. A
/// sticky edge facing a surface (except in the short grace after a
/// jump) pulls toward it — gently toward a floor, hard toward a
/// ceiling or wall — and votes for the stick flags; a slippery edge
/// facing mostly downward onto a surface votes slippery-below; every
/// other effect contributes nothing here.
pub open spec fn edge_contribution_spec(
    p: Player,
    body: BodyState,
    hit: Option<ProbeHit>,
    i: int,
    dt: i64,
) -> (Vec2Fix, bool, bool, bool) {
    let dir = Player::side_direction_spec(i).rotate_spec(
        body.pose.rot_cos as int,
        body.pose.rot_sin as int,
    );
    let down = Vec2Fix { x: 0, y: -1000i64 };
    let up = Vec2Fix { x: 0, y: 1000 };
    match p.effects@[i] {
        SideEffect::Sticky => {
            if hit is Some && p.time_since_last_jump > 30 {
                let to_floor = dir.dot_spec(down) > 800;
                let to_ceiling = dir.dot_spec(up) > 800;
                let force: int = if to_floor {
                    5000
                } else {
                    20000
                };
                let imp = Vec2Fix {
                    x: mul_scale(
                        mul_scale(mul_scale(dir.x as int, force), dt as int),
                        body.mass as int,
                    ) as i64,
                    y: mul_scale(
                        mul_scale(mul_scale(dir.y as int, force), dt as int),
                        body.mass as int,
                    ) as i64,
                };
                (imp, !to_floor && !to_ceiling, true, false)
            } else {
                (Vec2Fix { x: 0, y: 0 }, false, false, false)
            }
        },
        SideEffect::Slippery => {
            if hit is Some && dir.dot_spec(down) > 400 {
                (Vec2Fix { x: 0, y: 0 }, false, false, true)
            } else {
                (Vec2Fix { x: 0, y: 0 }, false, false, false)
            }
        },
        _ => (Vec2Fix { x: 0, y: 0 }, false, false, false),
    }
}

/// The edge contributions of edges `i .. 4` combined: impulses summed,
/// flag votes joined by or.
pub open spec fn edge_effects_from_spec(
    p: Player,
    body: BodyState,
    probes: TickProbes,
    dt: i64,
    i: int,
) -> (Vec2Fix, bool, bool, bool)
    decreases 4 - i,
{
    if 0 <= i < 4 {
        let c = edge_contribution_spec(p, body, probes.sides@[i], i, dt);
        let rest = edge_effects_from_spec(p, body, probes, dt, i + 1);
        (c.0.add_spec(rest.0), c.1 || rest.1, c.2 || rest.2, c.3 || rest.3)
    } else {
        (Vec2Fix { x: 0, y: 0 }, false, false, false)
    }
}

/// One component of a sticky edge's attractive impulse: direction
/// times force times the tick length times the body mass.
fn stick_component(c: i64, force: i64, dt: i64, mass: i64) -> (r: i64)
    requires
        -4000 <= c <= 4000,
        0 <= force <= 20000,
        0 <= dt <= DT_MAX,
        0 <= mass <= 1_000_000_000,
    ensures
        r == mul_scale(mul_scale(mul_scale(c as int, force as int), dt as int), mass as int),
        -100_000_000_000_000 <= r <= 100_000_000_000_000,
{
    proof {
        lemma_mul_bound(c as int, force as int, 4000, 20000);
        lemma_tdiv_bound(c * force, SCALE as int, 80_000_000);
    }
    let a = mul_milli(c, force);
    proof {
        lemma_mul_bound(a as int, dt as int, 80_000, 1_000_000);
        lemma_tdiv_bound(a * dt, SCALE as int, 80_000_000_000);
    }
    let b = mul_milli(a, dt);
    proof {
        lemma_mul_bound(b as int, mass as int, 80_000_000, 1_000_000_000);
        lemma_tdiv_bound(b * mass, SCALE as int, 80_000_000_000_000_000);
    }
    mul_milli(b, mass)
}

/// The contribution of the edge with index `i`, as
/// [`edge_contribution_spec`] states.
fn edge_contribution(p: &Player, body: &BodyState, hit: Option<ProbeHit>, i: usize, dt: i64) -> (r:
    (Vec2Fix, bool, bool, bool))
    requires
        p.wf(),
        body.wf(),
        0 <= dt <= DT_MAX,
        i < MAX_SIDES,
    ensures
        r == edge_contribution_spec(*p, *body, hit, i as int, dt),
        in_box(r.0, 100_000_000_000_000),
{
    let dir = Player::side_direction(i).rotate(body.pose.rot_cos, body.pose.rot_sin);
    let down = Vec2Fix { x: 0, y: -1000 };
    let up = Vec2Fix { x: 0, y: 1000 };
    match p.effects[i] {
        SideEffect::Sticky => {
            if hit.is_some() && p.time_since_last_jump > 30 {
                let to_floor = dir.dot(down) > 800;
                let to_ceiling = dir.dot(up) > 800;
                let force: i64 = if to_floor {
                    5000
                } else {
                    20000
                };
                let imp = Vec2Fix {
                    x: stick_component(dir.x, force, dt, body.mass),
                    y: stick_component(dir.y, force, dt, body.mass),
                };
                (imp, !to_floor && !to_ceiling, true, false)
            } else {
                (Vec2Fix { x: 0, y: 0 }, false, false, false)
            }
        },
        SideEffect::Slippery => {
            if hit.is_some() && dir.dot(down) > 400 {
                (Vec2Fix { x: 0, y: 0 }, false, false, true)
            } else {
                (Vec2Fix { x: 0, y: 0 }, false, false, false)
            }
        },
        _ => (Vec2Fix { x: 0, y: 0 }, false, false, false),
    }
}

/// Per-edge effect resolution: the four edges' impulses summed and
/// their stick/slip flag votes joined, as [`edge_effects_from_spec`]
/// states from index 0.
pub fn edge_effects(p: &Player, body: &BodyState, probes: &TickProbes, dt: i64) -> (r: (
    Vec2Fix,
    bool,
    bool,
    bool,
))
    requires
        p.wf(),
        body.wf(),
        0 <= dt <= DT_MAX,
    ensures
        r == edge_effects_from_spec(*p, *body, *probes, dt, 0),
        in_box(r.0, 400_000_000_000_000),
{
    proof {
        reveal_with_fuel(edge_effects_from_spec, 5);
    }
    let c0 = edge_contribution(p, body, probes.sides[0], 0, dt);
    let c1 = edge_contribution(p, body, probes.sides[1], 1, dt);
    let c2 = edge_contribution(p, body, probes.sides[2], 2, dt);
    let c3 = edge_contribution(p, body, probes.sides[3], 3, dt);
    let imp = c0.0.add(c1.0.add(c2.0.add(c3.0.add(Vec2Fix { x: 0, y: 0 }))));
    (imp, c0.1 || c1.1 || c2.1 || c3.1, c0.2 || c1.2 || c2.2 || c3.2, c0.3 || c1.3 || c2.3
        || c3.3)
}

/// The player after the three derived flags of this tick are
/// committed: wall-stick, any-stick and slippery-below each `set` to
/// the value the edge pass derived.
pub open spec fn commit_flags_spec(p: Player, wall: bool, any: bool, slip: bool) -> Player {
    Player {
        stick_to_wall_state: p.stick_to_wall_state.set_spec(wall),
        stick_to_anything_state: p.stick_to_anything_state.set_spec(any),
        slippery_below_state: p.slippery_below_state.set_spec(slip),
        ..p
    }
}

/// The whole tick of the locomotion controller: the player after all
/// eight phases, and the impulse and torque handed to the physics
/// engine — the horizontal, jump and edge impulses summed, and the
/// spin and snap torques summed.
pub open spec fn move_player_spec(
    p: Player,
    keys: InputKeys,
    body: BodyState,
    g: Vec2Fix,
    probes: TickProbes,
    dt: i64,
) -> (Player, TickOutput) {
    let pa = advance_timers_spec(p, dt);
    let hm = horizontal_move_spec(pa, keys, body, g, dt);
    let sc = schedule_spin_spec(hm.0, keys);
    let sp = spin_spec(sc.0, body);
    let tq_snap = snap_torque_spec(sp.0, body, dt);
    let ju = jump_spec(sp.0, keys, body, g, probes, sc.1);
    let ee = edge_effects_from_spec(ju.0, body, probes, dt, 0);
    let pf = commit_flags_spec(ju.0, ee.1, ee.2, ee.3);
    (
        pf,
        TickOutput {
            impulse: hm.1.add_spec(ju.1.add_spec(ee.0)),
            torque_impulse: (sp.1 + tq_snap) as i64,
        },
    )
}

/// Runs one fixed simulation tick of the player locomotion controller,
/// phase by phase in the documented order, and returns the impulse and
/// torque for the physics engine to integrate. Deterministic: the same
/// player, inputs, body state and probe results give the same next
/// player and the same output.
#[verifier::rlimit(100)]
pub fn move_player(
    p: &mut Player,
    keys: &InputKeys,
    body: &BodyState,
    g: Vec2Fix,
    probes: &TickProbes,
    dt: i64,
) -> (out: TickOutput)
    requires
        old(p).can_advance(dt),
        body.wf(),
        gravity_wf(g),
        0 <= dt <= DT_MAX,
    ensures
        (*final(p), out) == move_player_spec(*old(p), *keys, *body, g, *probes, dt),
        final(p).wf(),
        !keys.jump_pressed && !keys.spin_up_just_pressed && !keys.spin_down_just_pressed ==> {
            &&& final(p).landed_state.is_active == (probes.below is Some)
            &&& final(p).in_air_state.is_active == (probes.below is None)
        },
{
    advance_timers(p, dt);
    let imp_move = horizontal_move(p, keys, body, g, dt);
    let force_jump = schedule_spin(p, keys);
    let tq_spin = apply_spin(p, body);
    let tq_snap = snap_to_right_angle(p, body, dt);
    let imp_jump = execute_jump(p, keys, body, g, probes, force_jump);
    let ee = edge_effects(p, body, probes, dt);
    p.stick_to_wall_state.set(ee.1);
    p.stick_to_anything_state.set(ee.2);
    p.slippery_below_state.set(ee.3);
    TickOutput {
        impulse: imp_move.add(imp_jump.add(ee.0)),
        torque_impulse: tq_spin + tq_snap,
    }
}

} // verus!
