//! The registry of edge status effects and their physical coefficients.

use vstd::prelude::*;

verus! {

/// A status modifier attachable to one edge of a player.
///
/// `NoEffect` means "no effect is attached", not "unknown".
#[derive(Clone, Copy, Debug, PartialEq, Eq, Structural, Default)]
pub enum SideEffect {
    #[default]
    NoEffect,
    /// The edge sticks to walls, floors and ceilings; sticking slows movement.
    Sticky,
    /// The edge has almost no friction.
    Slippery,
    /// Blocks incoming harm (no physical effect in the locomotion core).
    Shield,
    /// Hurts on contact (no physical effect in the locomotion core).
    Thorns,
    /// Lights the surroundings (no physical effect in the locomotion core).
    Flashlight,
    /// Fires a beam (no physical effect in the locomotion core).
    Laser,
    /// The edge bounces: it restores most of the impact energy.
    Spring,
}

impl SideEffect {
    /// The small integer index of the effect, used to select the
    /// shader/material variant for an edge.
    pub fn to_index(&self) -> (r: u32)
        ensures
            r == self.index_spec(),
    {
        match *self {
            SideEffect::NoEffect => 0,
            SideEffect::Sticky => 1,
            SideEffect::Slippery => 2,
            SideEffect::Shield => 3,
            SideEffect::Thorns => 4,
            SideEffect::Flashlight => 5,
            SideEffect::Laser => 6,
            SideEffect::Spring => 7,
        }
    }

    /// The index returned by [`Self::to_index`].
    pub open spec fn index_spec(self) -> u32 {
        match self {
            SideEffect::NoEffect => 0,
            SideEffect::Sticky => 1,
            SideEffect::Slippery => 2,
            SideEffect::Shield => 3,
            SideEffect::Thorns => 4,
            SideEffect::Flashlight => 5,
            SideEffect::Laser => 6,
            SideEffect::Spring => 7,
        }
    }

    /// Friction coefficient of an edge carrying this effect, in
    /// milli-units: 0.6 for `Sticky`, 0.02 for `Slippery`, 0.3 otherwise.
    pub open spec fn friction_spec(self) -> i64 {
        match self {
            SideEffect::Sticky => 600,
            SideEffect::Slippery => 20,
            _ => 300,
        }
    }

    /// Restitution coefficient of an edge carrying this effect, in
    /// milli-units: 0.75 for `Spring`, 0.0 otherwise.
    pub open spec fn restitution_spec(self) -> i64 {
        match self {
            SideEffect::Spring => 750,
            _ => 0,
        }
    }

    /// Friction coefficient of an edge carrying this effect, in
    /// milli-units.
    pub fn friction_coefficient(&self) -> (r: i64)
        ensures
            r == self.friction_spec(),
    {
        match *self {
            SideEffect::Sticky => 600,
            SideEffect::Slippery => 20,
            _ => 300,
        }
    }

    /// Restitution coefficient of an edge carrying this effect, in
    /// milli-units.
    pub fn restitution_coefficient(&self) -> (r: i64)
        ensures
            r == self.restitution_spec(),
    {
        match *self {
            SideEffect::Spring => 750,
            _ => 0,
        }
    }
}

/// Round trip from effect assignment to derived coefficients: writing an
/// effect into any slot of an effect sequence and reading the slot's
/// coefficients back gives exactly the effect's table entry — 0.6
/// friction for `Sticky`, 0.02 for `Slippery` and 0.3 for every other
/// effect; 0.75 restitution for `Spring` and 0.0 for every other effect.
pub proof fn lemma_effect_coefficient_round_trip(effects: Seq<SideEffect>, i: int, e: SideEffect)
    requires
        0 <= i < effects.len(),
    ensures
        effects.update(i, SideEffect::Sticky)[i].friction_spec() == 600,
        effects.update(i, SideEffect::Slippery)[i].friction_spec() == 20,
        e !== SideEffect::Sticky && e !== SideEffect::Slippery ==> effects.update(i, e)[i].friction_spec() == 300,
        effects.update(i, SideEffect::Spring)[i].restitution_spec() == 750,
        e !== SideEffect::Spring ==> effects.update(i, e)[i].restitution_spec() == 0,
{
}

} // verus!
