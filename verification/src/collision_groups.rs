//! Collision-group bit masks: which categories of body collide with
//! which, and the filter the player's contact probes cast with.

use vstd::prelude::*;

verus! {

/// Membership bit of walls and other static scenery.
pub const WALL_BIT: u32 = 1;

/// Membership bit of player bodies and their edge sub-colliders.
pub const PLAYER_BIT: u32 = 2;

/// Membership bit of bonus pickup pads.
pub const BONUS_BIT: u32 = 4;

/// Membership bit of monsters.
pub const MONSTER_BIT: u32 = 8;

/// What a wall collides with: players, bonuses and monsters.
pub const WALL_FILTER: u32 = PLAYER_BIT | BONUS_BIT | MONSTER_BIT;

/// What a player collides with: walls, bonuses and monsters.
pub const PLAYER_FILTER: u32 = WALL_BIT | BONUS_BIT | MONSTER_BIT;

/// What a bonus collides with: walls, players and other bonuses.
pub const BONUS_FILTER: u32 = WALL_BIT | PLAYER_BIT | BONUS_BIT;

/// What a monster collides with: walls and players.
pub const MONSTER_FILTER: u32 = WALL_BIT | PLAYER_BIT;

/// What counts as solid to a player's contact probes: walls and other
/// players, but never bonuses.
pub const PROBE_FILTER: u32 = WALL_BIT | PLAYER_BIT;

/// The membership and filter a player's contact probe casts with: the
/// probe belongs to the player category and sees only the categories
/// that are solid to players.
pub fn probe_collision_groups() -> (r: (u32, u32))
    ensures
        r.0 == PLAYER_BIT,
        r.1 == PROBE_FILTER,
{
    (PLAYER_BIT, PROBE_FILTER)
}

/// Whether a body of the given membership bits is solid to a player's
/// contact probes.
pub fn is_solid_to_player(membership: u32) -> (r: bool)
    ensures
        r == (membership & PROBE_FILTER != 0),
{
    membership & PROBE_FILTER != 0
}

} // verus!
