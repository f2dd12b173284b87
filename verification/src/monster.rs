//! Monster movement: patrol entities pace back and forth, turning on a
//! random draw when nearly stopped; hunters steer toward the player.

use vstd::prelude::*;

use crate::fixed::{
    clamp_i64, clamp_spec, in_box, lemma_mul_bound, lemma_tdiv_bound, mul_milli, mul_scale,
    Vec2Fix, SCALE,
};
use crate::locomotion::{gravity_wf, BodyState};
use crate::player_state::DT_MAX;

verus! {

/// A patrol entity. Beyond the patrol-mode flag it is stateless; its
/// transform and velocity live in the physics engine.
#[derive(Clone, Copy, Debug, PartialEq, Eq, Structural, Default)]
pub struct Monster {
    /// Paces back and forth when set; hunts the player when clear.
    pub patrol: bool,
}

/// Relies on `rand::random`: draws one value of the given type from the
/// thread-local generator. Nothing is promised of the value drawn.
pub assume_specification<T>[ rand::random::<T> ]() -> (r: T)
    where
        rand::distributions::Standard: rand::distributions::Distribution<T>,
;

/// The lateral velocity a monster steers toward, in milli-units per
/// second. A patrolling monster keeps moving right while clearly moving
/// right; once stopped or slow it turns right or left on the coin. A
/// hunting monster moves toward the player's position.
pub open spec fn monster_target_velocity_spec(
    patrol: bool,
    vx: i64,
    monster_x: i64,
    player_x: i64,
    coin: bool,
) -> i64 {
    if patrol {
        if vx > 50 || (vx > -50 && coin) {
            2000
        } else {
            -2000i64
        }
    } else {
        if monster_x > player_x {
            -2000i64
        } else {
            2000
        }
    }
}

/// The lateral velocity a monster steers toward, given the coin that a
/// nearly-stopped patroller turns on. For every other input the coin
/// does not matter.
pub fn monster_target_velocity(
    patrol: bool,
    vx: i64,
    monster_x: i64,
    player_x: i64,
    coin: bool,
) -> (r: i64)
    ensures
        r == monster_target_velocity_spec(patrol, vx, monster_x, player_x, coin),
{
    if patrol {
        if vx > 50 || (vx > -50 && coin) {
            2000
        } else {
            -2000
        }
    } else {
        if monster_x > player_x {
            -2000
        } else {
            2000
        }
    }
}

/// The animation state bits pushed into the monster's material: bit 0
/// set while the monster moves left.
pub open spec fn monster_state_spec(vx: i64) -> u32 {
    if vx < 0 {
        1u32
    } else {
        0u32
    }
}

/// The corrective impulse that steers the monster's lateral velocity
/// toward `target`, clamped by a fixed acceleration of 12.0 per second
/// and scaled by the monster's mass.
pub open spec fn monster_impulse_spec(target: i64, body: BodyState, g: Vec2Fix, dt: i64) -> Vec2Fix {
    let right = g.perp_spec();
    let dv0 = target - body.linvel.dot_spec(right);
    let limit = mul_scale(12000, dt as int);
    let dv = clamp_spec(dv0, -limit, limit);
    Vec2Fix {
        x: mul_scale(mul_scale(right.x as int, dv), body.mass as int) as i64,
        y: mul_scale(mul_scale(right.y as int, dv), body.mass as int) as i64,
    }
}

/// One component of the monster's corrective impulse.
fn monster_impulse_component(c: i64, dv: i64, mass: i64) -> (r: i64)
    requires
        -1000 <= c <= 1000,
        -100_000_000 <= dv <= 100_000_000,
        0 <= mass <= 1_000_000_000,
    ensures
        r == mul_scale(mul_scale(c as int, dv as int), mass as int),
        -100_000_000_000_000 <= r <= 100_000_000_000_000,
{
    proof {
        lemma_mul_bound(c as int, dv as int, 1000, 100_000_000);
        lemma_tdiv_bound(c * dv, SCALE as int, 100_000_000_000);
    }
    let a = mul_milli(c, dv);
    proof {
        lemma_mul_bound(a as int, mass as int, 100_000_000, 1_000_000_000);
        lemma_tdiv_bound(a * mass, SCALE as int, 100_000_000_000_000_000);
    }
    mul_milli(a, mass)
}

/// The corrective impulse toward a target lateral velocity, as
/// [`monster_impulse_spec`] states.
pub fn monster_impulse(target: i64, body: &BodyState, g: Vec2Fix, dt: i64) -> (imp: Vec2Fix)
    requires
        body.wf(),
        gravity_wf(g),
        0 <= dt <= DT_MAX,
        -2000 <= target <= 2000,
    ensures
        imp == monster_impulse_spec(target, *body, g, dt),
        in_box(imp, 100_000_000_000_000),
{
    let right = g.perp();
    proof {
        lemma_mul_bound(body.linvel.x as int, right.x as int, 1_000_000_000, 1000);
        lemma_mul_bound(body.linvel.y as int, right.y as int, 1_000_000_000, 1000);
        lemma_tdiv_bound(
            body.linvel.x * right.x + body.linvel.y * right.y,
            SCALE as int,
            2_000_000_000_000,
        );
        lemma_tdiv_bound(12000 * dt as int, SCALE as int, 12_000_000_000);
        vstd::arithmetic::div_mod::lemma_div_pos_is_pos(12000 * dt as int, SCALE as int);
    }
    let dv0 = target - body.linvel.dot(right);
    let limit = mul_milli(12000, dt);
    let dv = clamp_i64(dv0, -limit, limit);
    Vec2Fix {
        x: monster_impulse_component(right.x, dv, body.mass),
        y: monster_impulse_component(right.y, dv, body.mass),
    }
}

/// One tick of monster movement: returns the impulse to integrate and
/// the animation state for the monster's material. A patroller that is
/// nearly stopped picks its new direction on a fresh random draw, so
/// only the two outcomes — steering fully right or fully left — are
/// promised; every other input determines the impulse outright.
pub fn move_monster(monster: &Monster, body: &BodyState, player_x: i64, g: Vec2Fix, dt: i64) -> (r:
    (Vec2Fix, u32))
    requires
        body.wf(),
        gravity_wf(g),
        0 <= dt <= DT_MAX,
    ensures
        r.1 == monster_state_spec(body.linvel.x),
        exists|coin: bool|
            r.0 == monster_impulse_spec(
                monster_target_velocity_spec(
                    monster.patrol,
                    body.linvel.x,
                    body.pose.translation.x,
                    player_x,
                    coin,
                ),
                *body,
                g,
                dt,
            ),
        in_box(r.0, 100_000_000_000_000),
{
    let state: u32 = if body.linvel.x < 0 {
        1
    } else {
        0
    };
    let coin = rand::random::<bool>();
    let target = monster_target_velocity(
        monster.patrol,
        body.linvel.x,
        body.pose.translation.x,
        player_x,
        coin,
    );
    let imp = monster_impulse(target, body, g, dt);
    proof {
        assert(imp == monster_impulse_spec(
            monster_target_velocity_spec(
                monster.patrol,
                body.linvel.x,
                body.pose.translation.x,
                player_x,
                coin,
            ),
            *body,
            g,
            dt,
        ));
    }
    (imp, state)
}

} // verus!
