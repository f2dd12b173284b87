//! Edge-effect property sync: projects a player's per-edge effects
//! into collider friction/restitution writes and into the visual
//! state handed to the render material.

use vstd::prelude::*;

use crate::shape::MAX_SIDES;
use crate::side_effect::SideEffect;

verus! {

/// Friction and restitution currently set on an edge's sub-collider.
#[derive(Clone, Copy, Debug, PartialEq, Eq, Structural)]
pub struct EdgeSurface {
    /// Friction coefficient, in milli-units.
    pub friction: i64,
    /// Restitution coefficient, in milli-units.
    pub restitution: i64,
}

/// Pending writes for one edge's sub-collider: a value is `Some` only
/// where the collider's current coefficient differs from the one the
/// edge's effect asks for, so unchanged values are never rewritten.
#[derive(Clone, Copy, Debug, PartialEq, Eq, Structural)]
pub struct EdgeWrite {
    /// New friction coefficient, where it differs.
    pub friction: Option<i64>,
    /// New restitution coefficient, where it differs.
    pub restitution: Option<i64>,
}

/// The write an edge needs: each coefficient of the effect's table,
/// but only where the surface does not already hold it.
pub open spec fn edge_write_spec(e: SideEffect, cur: EdgeSurface) -> EdgeWrite {
    EdgeWrite {
        friction: if cur.friction != e.friction_spec() {
            Some(e.friction_spec())
        } else {
            None
        },
        restitution: if cur.restitution != e.restitution_spec() {
            Some(e.restitution_spec())
        } else {
            None
        },
    }
}

/// The coefficient write one edge needs, given its effect and what its
/// sub-collider currently holds.
pub fn edge_write(e: SideEffect, cur: EdgeSurface) -> (w: EdgeWrite)
    ensures
        w == edge_write_spec(e, cur),
{
    let f = e.friction_coefficient();
    let r = e.restitution_coefficient();
    EdgeWrite {
        friction: if cur.friction != f {
            Some(f)
        } else {
            None
        },
        restitution: if cur.restitution != r {
            Some(r)
        } else {
            None
        },
    }
}

/// The coefficient writes all four edge sub-colliders need so that
/// each edge's friction is its effect's friction (0.6 sticky, 0.02
/// slippery, 0.3 otherwise) and its restitution its effect's
/// restitution (0.75 spring, 0.0 otherwise); an edge whose collider
/// already holds both values gets no write.
pub fn update_side_entities(
    effects: &[SideEffect; MAX_SIDES],
    current: &[EdgeSurface; MAX_SIDES],
) -> (w: [EdgeWrite; MAX_SIDES])
    ensures
        forall|i: int| 0 <= i < MAX_SIDES ==> w@[i] == edge_write_spec(effects@[i], current@[i]),
{
    [
        edge_write(effects[0], current[0]),
        edge_write(effects[1], current[1]),
        edge_write(effects[2], current[2]),
        edge_write(effects[3], current[3]),
    ]
}

/// The per-edge material variant indices pushed into the player's
/// render material whenever the player changed: edge `i` shows the
/// variant of `effects[i]`.
pub fn update_side_effects(effects: &[SideEffect; MAX_SIDES]) -> (r: [u32; MAX_SIDES])
    ensures
        forall|i: int| 0 <= i < MAX_SIDES ==> r@[i] == effects@[i].index_spec(),
{
    [
        effects[0].to_index(),
        effects[1].to_index(),
        effects[2].to_index(),
        effects[3].to_index(),
    ]
}

/// One step of the material animation clock, advanced every tick the
/// render layer updates its materials; the clock wraps around rather
/// than stopping.
pub fn update_materials(animation_tick: u32) -> (r: u32)
    ensures
        r == (if animation_tick == u32::MAX { 0u32 } else { (animation_tick + 1) as u32 }),
{
    animation_tick.wrapping_add(1)
}

/// The material flag word of the player's render uniform: bit 0 set
/// when a base texture is bound, bit 1 when an emissive texture is,
/// bit 2 when an overlay texture is.
pub fn material_flags(has_texture: bool, has_emissive: bool, has_overlay: bool) -> (r: u32)
    ensures
        r == (if has_texture { 1int } else { 0int }) + (if has_emissive { 2int } else { 0int })
            + (if has_overlay { 4int } else { 0int }),
{
    let mut flags: u32 = 0;
    if has_texture {
        flags = flags + 1;
    }
    if has_emissive {
        flags = flags + 2;
    }
    if has_overlay {
        flags = flags + 4;
    }
    flags
}

} // verus!
