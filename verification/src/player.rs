//! The player aggregate: timed state flags, spin/jump counters, the
//! pending spin latch, and the per-edge effect bookkeeping.

use vstd::prelude::*;

use crate::fixed::{in_box, Vec2Fix};
use crate::player_state::{PlayerState, TIME_MAX};
use crate::shape::MAX_SIDES;
use crate::side_effect::SideEffect;

verus! {

/// One controllable character.
///
/// The four edge slots are indexed 0 = bottom, 1 = right, 2 = top,
/// 3 = left; the effect array and the edge-entity array always have
/// this same fixed length. The body's transform, velocity and mass
/// live in the physics engine and reach the core as tick inputs.
#[derive(Clone, Copy, Debug, PartialEq, Eq)]
pub struct Player {
    /// Identity of the player.
    pub id: u32,
    /// Set while a movement key is held.
    pub moving_state: PlayerState,
    /// Set while something solid is directly below.
    pub landed_state: PlayerState,
    /// Set while nothing solid is below.
    pub in_air_state: PlayerState,
    /// Set while a sticky edge holds onto a wall.
    pub stick_to_wall_state: PlayerState,
    /// Set while a sticky edge holds onto any surface.
    pub stick_to_anything_state: PlayerState,
    /// Set while a slippery edge faces mostly downward onto a surface.
    pub slippery_below_state: PlayerState,
    /// Milliseconds since the last spin torque was applied.
    pub time_since_last_spin: i64,
    /// Milliseconds since the last jump fired.
    pub time_since_last_jump: i64,
    /// At most one scheduled spin torque, in milli-units, consumed once
    /// by the controller; a second key press before consumption
    /// overwrites it.
    pub delayed_spin_torque: Option<i64>,
    /// The status effect carried by each edge.
    pub effects: [SideEffect; MAX_SIDES],
    /// The physics-engine entity of each edge's sub-collider, where the
    /// scene has spawned one.
    pub side_entities: [Option<u64>; MAX_SIDES],
}

impl Player {
    /// Every timer is in range and the pending spin torque, if any, is
    /// a value the input layer can schedule.
    pub open spec fn wf(self) -> bool {
        &&& self.moving_state.wf()
        &&& self.landed_state.wf()
        &&& self.in_air_state.wf()
        &&& self.stick_to_wall_state.wf()
        &&& self.stick_to_anything_state.wf()
        &&& self.slippery_below_state.wf()
        &&& 0 <= self.time_since_last_spin <= TIME_MAX
        &&& 0 <= self.time_since_last_jump <= TIME_MAX
        &&& match self.delayed_spin_torque {
            Some(t) => -1_000_000 <= t <= 1_000_000,
            None => true,
        }
    }

    /// A fresh player with every flag inactive, zeroed timers, no
    /// pending spin and no effect on any edge.
    pub fn new(id: u32) -> (r: Player)
        ensures
            r.id == id,
            r.wf(),
            r == (Player {
                id,
                moving_state: PlayerState { is_active: false, time_since_changed: 0 },
                landed_state: PlayerState { is_active: false, time_since_changed: 0 },
                in_air_state: PlayerState { is_active: false, time_since_changed: 0 },
                stick_to_wall_state: PlayerState { is_active: false, time_since_changed: 0 },
                stick_to_anything_state: PlayerState { is_active: false, time_since_changed: 0 },
                slippery_below_state: PlayerState { is_active: false, time_since_changed: 0 },
                time_since_last_spin: 0,
                time_since_last_jump: 0,
                delayed_spin_torque: None::<i64>,
                effects: [SideEffect::NoEffect, SideEffect::NoEffect, SideEffect::NoEffect, SideEffect::NoEffect],
                side_entities: [None::<u64>, None::<u64>, None::<u64>, None::<u64>],
            }),
    {
        Player {
            id,
            moving_state: PlayerState::new(),
            landed_state: PlayerState::new(),
            in_air_state: PlayerState::new(),
            stick_to_wall_state: PlayerState::new(),
            stick_to_anything_state: PlayerState::new(),
            slippery_below_state: PlayerState::new(),
            time_since_last_spin: 0,
            time_since_last_jump: 0,
            delayed_spin_torque: None,
            effects: [SideEffect::NoEffect, SideEffect::NoEffect, SideEffect::NoEffect, SideEffect::NoEffect],
            side_entities: [None, None, None, None],
        }
    }

    /// The lateral speed cap returned by [`Self::get_max_speed`]:
    /// 4.0 on a slippery footing, otherwise 2.5.
    pub open spec fn max_speed_spec(self) -> i64 {
        if self.slippery_below_state.is_active {
            4000
        } else {
            2500
        }
    }

    /// Largest lateral speed the controller steers toward, in
    /// milli-units per second.
    pub fn get_max_speed(&self) -> (r: i64)
        ensures
            r == self.max_speed_spec(),
    {
        if self.slippery_below_state.is_active {
            4000
        } else {
            2500
        }
    }

    /// Largest angular speed of the body, in milli-quarter-turns per
    /// second.
    pub fn get_max_angular_speed(&self) -> (r: i64)
        ensures
            r == 3000,
    {
        3000
    }

    /// Largest lateral acceleration the controller may request, in
    /// milli-units per second squared.
    pub fn get_max_acceleration(&self) -> (r: i64)
        ensures
            r == 14000,
    {
        14000
    }

    /// Largest angular acceleration the controller may request, in
    /// milli-quarter-turns per second squared.
    pub fn get_max_angular_acceleration(&self) -> (r: i64)
        ensures
            r == 35000,
    {
        35000
    }

    /// Upward impulse per unit of mass applied by a jump, in
    /// milli-units.
    pub fn get_jump_impulse(&self) -> (r: i64)
        ensures
            r == 4000,
    {
        4000
    }

    /// Friction coefficient of the player's main collider, in
    /// milli-units.
    pub fn get_friction(&self) -> (r: i64)
        ensures
            r == 200,
    {
        200
    }

    /// Offset from the body origin at which movement impulses are
    /// applied.
    pub fn get_center_offset(&self) -> (r: Vec2Fix)
        ensures
            r == (Vec2Fix { x: 0, y: 0 }),
    {
        Vec2Fix { x: 0, y: 0 }
    }

    /// Body-local center of the edge with index `i`, in milli-units.
    pub open spec fn side_center_spec(i: int) -> Vec2Fix {
        if i == 0 {
            Vec2Fix { x: 0, y: -500i64 }
        } else if i == 1 {
            Vec2Fix { x: 500, y: 0 }
        } else if i == 2 {
            Vec2Fix { x: 0, y: 500 }
        } else {
            Vec2Fix { x: -500i64, y: 0 }
        }
    }

    /// Body-local outward unit direction of the edge with index `i`.
    pub open spec fn side_direction_spec(i: int) -> Vec2Fix {
        if i == 0 {
            Vec2Fix { x: 0, y: -1000i64 }
        } else if i == 1 {
            Vec2Fix { x: 1000, y: 0 }
        } else if i == 2 {
            Vec2Fix { x: 0, y: 1000 }
        } else {
            Vec2Fix { x: -1000i64, y: 0 }
        }
    }

    /// Body-local center of the edge with index `i`.
    pub fn side_center(i: usize) -> (r: Vec2Fix)
        requires
            i < MAX_SIDES,
        ensures
            r == Self::side_center_spec(i as int),
            in_box(r, 2000),
    {
        if i == 0 {
            Vec2Fix { x: 0, y: -500 }
        } else if i == 1 {
            Vec2Fix { x: 500, y: 0 }
        } else if i == 2 {
            Vec2Fix { x: 0, y: 500 }
        } else {
            Vec2Fix { x: -500, y: 0 }
        }
    }

    /// Body-local outward unit direction of the edge with index `i`.
    pub fn side_direction(i: usize) -> (r: Vec2Fix)
        requires
            i < MAX_SIDES,
        ensures
            r == Self::side_direction_spec(i as int),
            in_box(r, 2000),
    {
        if i == 0 {
            Vec2Fix { x: 0, y: -1000 }
        } else if i == 1 {
            Vec2Fix { x: 1000, y: 0 }
        } else if i == 2 {
            Vec2Fix { x: 0, y: 1000 }
        } else {
            Vec2Fix { x: -1000, y: 0 }
        }
    }

    /// Body-local centers of the four edges, bottom, right, top, left.
    pub fn get_side_centers(&self) -> (r: Vec<Vec2Fix>)
        ensures
            r@.len() == MAX_SIDES,
            forall|i: int| 0 <= i < MAX_SIDES ==> r@[i] == Self::side_center_spec(i),
    {
        let mut v: Vec<Vec2Fix> = Vec::new();
        v.push(Vec2Fix { x: 0, y: -500 });
        v.push(Vec2Fix { x: 500, y: 0 });
        v.push(Vec2Fix { x: 0, y: 500 });
        v.push(Vec2Fix { x: -500, y: 0 });
        v
    }

    /// Body-local outward directions of the four edges, bottom, right,
    /// top, left.
    pub fn get_side_directions(&self) -> (r: Vec<Vec2Fix>)
        ensures
            r@.len() == MAX_SIDES,
            forall|i: int| 0 <= i < MAX_SIDES ==> r@[i] == Self::side_direction_spec(i),
    {
        let mut v: Vec<Vec2Fix> = Vec::new();
        v.push(Vec2Fix { x: 0, y: -1000 });
        v.push(Vec2Fix { x: 1000, y: 0 });
        v.push(Vec2Fix { x: 0, y: 1000 });
        v.push(Vec2Fix { x: -1000, y: 0 });
        v
    }
}

} // verus!
