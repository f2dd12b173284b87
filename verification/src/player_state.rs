//! A timed activation flag: a boolean together with the time since its
//! last true transition, used for debounce and hysteresis decisions.

use vstd::prelude::*;

verus! {

/// Upper bound kept on every accumulated timer, in milliseconds
/// (about thirty-one years of simulated time), so that timer sums and
/// the arithmetic derived from them never leave `i64`.
pub const TIME_MAX: i64 = 1_000_000_000_000;

/// Largest tick length accepted by the core, in milliseconds.
pub const DT_MAX: i64 = 1_000_000;

/// A boolean flag with an attached "time since last transition" clock.
///
/// The clock resets to zero exactly on a true transition
/// (active to inactive or inactive to active); setting the state it
/// already has changes nothing.
#[derive(Clone, Copy, Debug, PartialEq, Eq, Structural, Default)]
pub struct PlayerState {
    /// Whether the flag is currently set.
    pub is_active: bool,
    /// Milliseconds since the flag last changed value.
    pub time_since_changed: i64,
}

impl PlayerState {
    /// The clock is non-negative and small enough that adding a tick
    /// never overflows.
    pub open spec fn wf(self) -> bool {
        0 <= self.time_since_changed <= TIME_MAX
    }

    /// The state after its clock advanced by `dt`.
    pub open spec fn advance_spec(self, dt: i64) -> PlayerState {
        PlayerState { is_active: self.is_active, time_since_changed: (self.time_since_changed + dt) as i64 }
    }

    /// The state after `activate`: turned active, with the clock reset
    /// only if it was inactive.
    pub open spec fn activate_spec(self) -> PlayerState {
        if self.is_active {
            self
        } else {
            PlayerState { is_active: true, time_since_changed: 0 }
        }
    }

    /// The state after `deactivate`: turned inactive, with the clock
    /// reset only if it was active.
    pub open spec fn deactivate_spec(self) -> PlayerState {
        if self.is_active {
            PlayerState { is_active: false, time_since_changed: 0 }
        } else {
            self
        }
    }

    /// The state after `set(active)`.
    pub open spec fn set_spec(self, active: bool) -> PlayerState {
        if active {
            self.activate_spec()
        } else {
            self.deactivate_spec()
        }
    }

    /// Elapsed time while active: the clock if active, otherwise zero.
    pub open spec fn time_since_activated_spec(self) -> i64 {
        if self.is_active {
            self.time_since_changed
        } else {
            0
        }
    }

    /// Elapsed time while inactive: the clock if inactive, otherwise zero.
    pub open spec fn time_since_deactivated_spec(self) -> i64 {
        if self.is_active {
            0
        } else {
            self.time_since_changed
        }
    }

    /// A fresh inactive flag with a zero clock.
    pub fn new() -> (r: PlayerState)
        ensures
            r == (PlayerState { is_active: false, time_since_changed: 0 }),
            r.wf(),
    {
        PlayerState { is_active: false, time_since_changed: 0 }
    }

    /// Accumulates `dt` milliseconds on the clock, active or not.
    pub fn advance(&mut self, dt: i64)
        requires
            old(self).wf(),
            0 <= dt <= DT_MAX,
            old(self).time_since_changed + dt <= TIME_MAX,
        ensures
            *final(self) == old(self).advance_spec(dt),
            final(self).wf(),
    {
        self.time_since_changed = self.time_since_changed + dt;
    }

    /// Dispatches to `activate` or `deactivate`.
    pub fn set(&mut self, active: bool)
        requires
            old(self).wf(),
        ensures
            *final(self) == old(self).set_spec(active),
            final(self).wf(),
    {
        if active {
            self.activate();
        } else {
            self.deactivate();
        }
    }

    /// Turns the flag active. Idempotent: a second call changes nothing,
    /// and in particular does not reset the clock.
    pub fn activate(&mut self)
        requires
            old(self).wf(),
        ensures
            *final(self) == old(self).activate_spec(),
            final(self).wf(),
    {
        if !self.is_active {
            self.is_active = true;
            self.time_since_changed = 0;
        }
    }

    /// Turns the flag inactive. Idempotent: a second call changes
    /// nothing, and in particular does not reset the clock.
    pub fn deactivate(&mut self)
        requires
            old(self).wf(),
        ensures
            *final(self) == old(self).deactivate_spec(),
            final(self).wf(),
    {
        if self.is_active {
            self.is_active = false;
            self.time_since_changed = 0;
        }
    }

    /// Milliseconds for which the flag has been active, zero when it
    /// is not.
    pub fn time_since_activated(&self) -> (r: i64)
        ensures
            r == self.time_since_activated_spec(),
    {
        if self.is_active {
            self.time_since_changed
        } else {
            0
        }
    }

    /// Milliseconds for which the flag has been inactive, zero when it
    /// is active.
    pub fn time_since_deactivated(&self) -> (r: i64)
        ensures
            r == self.time_since_deactivated_spec(),
    {
        if self.is_active {
            0
        } else {
            self.time_since_changed
        }
    }
}

/// Activation is idempotent: activating twice leaves the state, and in
/// particular its clock, exactly as activating once does. Deactivating
/// immediately after an activation always leaves the clock at zero.
pub proof fn lemma_activate_idempotent(s: PlayerState)
    ensures
        s.activate_spec().activate_spec() == s.activate_spec(),
        s.deactivate_spec().deactivate_spec() == s.deactivate_spec(),
        s.activate_spec().deactivate_spec().time_since_changed == 0,
{
}

} // verus!
