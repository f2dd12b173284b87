//! Bonus pickup resolver: moves a bonus's effect onto the nearest
//! unoccupied edge of a colliding player, and marks used bonuses for
//! destruction at the end of the tick.

use vstd::prelude::*;
use vstd::pervasive::VecAdditionalExecFns;

use crate::fixed::Pose;
use crate::player::Player;
use crate::shape::MAX_SIDES;
use crate::side_effect::SideEffect;

verus! {

/// A pickup pad holding at most one effect. The effect is moved, not
/// copied, into a player's edge slot on the first qualifying collision;
/// a bonus left without an effect is destroyed at the end of the tick.
#[derive(Clone, Copy, Debug, PartialEq, Eq, Default)]
pub struct Bonus {
    /// The effect still carried, or `None` once consumed.
    pub effect: Option<SideEffect>,
}

/// Squared distance between the world position of the player edge with
/// index `i` (its local center carried through the player's transform)
/// and the bonus's world position.
pub open spec fn side_dist2(pt: Pose, bt: Pose, i: int) -> int {
    pt.transform_point_spec(Player::side_center_spec(i)).dist2_spec(bt.translation)
}

/// The nearest unoccupied edge among indices `i .. 4`: the first edge
/// without an effect at minimal squared distance from the bonus. Ties
/// go to the lower index.
pub open spec fn nearest_empty_side_from(
    effects: [SideEffect; MAX_SIDES],
    pt: Pose,
    bt: Pose,
    i: int,
) -> Option<int>
    decreases 4 - i,
{
    if 0 <= i < 4 {
        let rest = nearest_empty_side_from(effects, pt, bt, i + 1);
        if effects@[i] is NoEffect {
            match rest {
                Option::None => Some(i),
                Option::Some(j) => if side_dist2(pt, bt, j) < side_dist2(pt, bt, i) {
                    Some(j)
                } else {
                    Some(i)
                },
            }
        } else {
            rest
        }
    } else {
        None
    }
}

/// The edge slot the pickup resolver assigns to: the first unoccupied
/// edge at minimal squared distance from the bonus, or `None` when all
/// four edges are occupied.
pub open spec fn nearest_empty_side_spec(
    effects: [SideEffect; MAX_SIDES],
    pt: Pose,
    bt: Pose,
) -> Option<int> {
    nearest_empty_side_from(effects, pt, bt, 0)
}

/// The effect array with slot `i` replaced by `e`.
pub open spec fn set_effect_spec(
    effects: [SideEffect; MAX_SIDES],
    i: int,
    e: SideEffect,
) -> [SideEffect; MAX_SIDES] {
    [
        if i == 0 { e } else { effects@[0] },
        if i == 1 { e } else { effects@[1] },
        if i == 2 { e } else { effects@[2] },
        if i == 3 { e } else { effects@[3] },
    ]
}

/// What one qualifying collision does: when the bonus still holds an
/// effect and the player has an unoccupied edge, the effect moves into
/// the nearest such edge and the bonus is left empty; otherwise both
/// stay exactly as they were.
pub open spec fn apply_to_spec(b: Bonus, p: Player, pt: Pose, bt: Pose) -> (Bonus, Player) {
    match (b.effect, nearest_empty_side_spec(p.effects, pt, bt)) {
        (Some(e), Some(i)) => (
            Bonus { effect: None },
            Player { effects: set_effect_spec(p.effects, i, e), ..p },
        ),
        _ => (b, p),
    }
}

/// The selection never picks an occupied edge, and never passes over a
/// strictly nearer unoccupied edge: a chosen edge is unoccupied, no
/// unoccupied edge is strictly nearer, and every unoccupied edge of
/// lower index is strictly farther. `None` comes back exactly when all
/// four edges are occupied.
pub proof fn lemma_nearest_empty_side_sound(
    effects: [SideEffect; MAX_SIDES],
    pt: Pose,
    bt: Pose,
    i: int,
)
    requires
        0 <= i <= 4,
    ensures
        match nearest_empty_side_from(effects, pt, bt, i) {
            Option::Some(k) => {
                &&& i <= k < 4
                &&& effects@[k] is NoEffect
                &&& forall|j: int|
                    i <= j < 4 && effects@[j] is NoEffect ==> side_dist2(pt, bt, k) <= side_dist2(
                        pt,
                        bt,
                        j,
                    )
                &&& forall|j: int|
                    i <= j < k && effects@[j] is NoEffect ==> side_dist2(pt, bt, k) < side_dist2(
                        pt,
                        bt,
                        j,
                    )
            },
            Option::None => forall|j: int| i <= j < 4 ==> !(effects@[j] is NoEffect),
        },
    decreases 4 - i,
{
    if i < 4 {
        lemma_nearest_empty_side_sound(effects, pt, bt, i + 1);
    }
}

/// The pickup resolver never overwrites an occupied edge: applying a
/// bonus to a player leaves every occupied edge slot exactly as it
/// was, and writes, if anywhere, into an unoccupied slot no farther
/// from the bonus than any other unoccupied slot.
pub proof fn lemma_pickup_never_overwrites(b: Bonus, p: Player, pt: Pose, bt: Pose)
    ensures
        forall|i: int|
            0 <= i < 4 && !(p.effects@[i] is NoEffect) ==> apply_to_spec(
                b,
                p,
                pt,
                bt,
            ).1.effects@[i] == p.effects@[i],
        apply_to_spec(b, p, pt, bt).1.effects@ != p.effects@ ==> exists|k: int|
            {
                &&& 0 <= k < 4
                &&& p.effects@[k] is NoEffect
                &&& b.effect is Some
                &&& apply_to_spec(b, p, pt, bt).1.effects@ == set_effect_spec(
                    p.effects,
                    k,
                    b.effect->0,
                )@
                &&& forall|j: int|
                    0 <= j < 4 && p.effects@[j] is NoEffect ==> side_dist2(pt, bt, k)
                        <= side_dist2(pt, bt, j)
            },
{
    lemma_nearest_empty_side_sound(p.effects, pt, bt, 0);
}

impl Bonus {
    /// Whether the bonus's effect has been taken.
    pub fn is_used(&self) -> (r: bool)
        ensures
            r == (self.effect is None),
    {
        self.effect.is_none()
    }

    /// Moves this bonus's effect onto the player's nearest unoccupied
    /// edge, as [`apply_to_spec`] states; a bonus without an effect, or
    /// a player without an unoccupied edge, leaves both untouched.
    pub fn apply_to(&mut self, player: &mut Player, pt: &Pose, bt: &Pose)
        requires
            pt.wf(),
            bt.wf(),
        ensures
            ({
                let (nb, np) = apply_to_spec(*old(self), *old(player), *pt, *bt);
                *final(self) == nb && *final(player) == np
            }),
    {
        let side = nearest_empty_side(&player.effects, pt, bt);
        if let Some(side) = side {
            if let Some(effect) = self.effect.take() {
                player.effects[side] = effect;
                proof {
                    assert(player.effects =~= set_effect_spec(
                        old(player).effects,
                        side as int,
                        effect,
                    ));
                }
            }
        }
    }
}

/// The index of the first unoccupied edge at minimal squared distance
/// from the bonus position, or `None` when every edge is occupied.
pub fn nearest_empty_side(effects: &[SideEffect; MAX_SIDES], pt: &Pose, bt: &Pose) -> (r: Option<
    usize,
>)
    requires
        pt.wf(),
        bt.wf(),
    ensures
        match r {
            Option::Some(k) => k < MAX_SIDES && nearest_empty_side_spec(*effects, *pt, *bt)
                == Some(k as int),
            Option::None => nearest_empty_side_spec(*effects, *pt, *bt) is None,
        },
{
    let mut i: usize = MAX_SIDES;
    let mut cur: Option<usize> = None;
    let mut cur_d2: i64 = 0;
    while i > 0
        invariant
            pt.wf(),
            bt.wf(),
            i <= MAX_SIDES,
            match cur {
                Option::Some(b) => {
                    &&& nearest_empty_side_from(*effects, *pt, *bt, i as int) == Some(b as int)
                    &&& b < 4
                    &&& cur_d2 == side_dist2(*pt, *bt, b as int)
                },
                Option::None => nearest_empty_side_from(*effects, *pt, *bt, i as int) is None,
            },
        decreases i,
    {
        i = i - 1;
        let is_empty = match effects[i] {
            SideEffect::NoEffect => true,
            _ => false,
        };
        if is_empty {
            let world = pt.transform_point(Player::side_center(i));
            let d2 = world.dist2(bt.translation);
            match cur {
                Option::Some(_) => {
                    if !(cur_d2 < d2) {
                        cur = Some(i);
                        cur_d2 = d2;
                    }
                },
                Option::None => {
                    cur = Some(i);
                    cur_d2 = d2;
                },
            }
        }
    }
    cur
}

/// One player as the pickup pass sees it: its engine entity, its
/// transform for this tick, and its gameplay state.
#[derive(Clone, Copy, Debug, PartialEq, Eq)]
pub struct PlayerEntry {
    /// The physics-engine entity of the player's body.
    pub entity: u64,
    /// The player's transform for this tick.
    pub pose: Pose,
    /// The player's gameplay state.
    pub player: Player,
}

/// One bonus as the pickup pass sees it.
#[derive(Clone, Copy, Debug, PartialEq, Eq)]
pub struct BonusEntry {
    /// The physics-engine entity of the bonus.
    pub entity: u64,
    /// The bonus's transform for this tick.
    pub pose: Pose,
    /// The bonus's remaining effect.
    pub bonus: Bonus,
}

/// A collision-start event between two entities, in arrival order.
#[derive(Clone, Copy, Debug, PartialEq, Eq, Structural)]
pub struct CollisionPair {
    /// The first entity of the colliding pair.
    pub first: u64,
    /// The second entity of the colliding pair.
    pub second: u64,
}

/// Index of the first player entry with the given entity, scanning
/// from `i`.
pub open spec fn find_player_from(ps: Seq<PlayerEntry>, id: u64, i: int) -> Option<int>
    decreases ps.len() - i,
{
    if 0 <= i < ps.len() {
        if ps[i].entity == id {
            Some(i)
        } else {
            find_player_from(ps, id, i + 1)
        }
    } else {
        None
    }
}

/// Index of the first bonus entry with the given entity, scanning
/// from `i`.
pub open spec fn find_bonus_from(bs: Seq<BonusEntry>, id: u64, i: int) -> Option<int>
    decreases bs.len() - i,
{
    if 0 <= i < bs.len() {
        if bs[i].entity == id {
            Some(i)
        } else {
            find_bonus_from(bs, id, i + 1)
        }
    } else {
        None
    }
}

/// The world after the bonus at index `q` was applied to the player at
/// index `p`: only those two entries change, and only their `player`
/// and `bonus` fields, as [`apply_to_spec`] states.
pub open spec fn apply_at_spec(ps: Seq<PlayerEntry>, bs: Seq<BonusEntry>, p: int, q: int) -> (
    Seq<PlayerEntry>,
    Seq<BonusEntry>,
) {
    let r = apply_to_spec(bs[q].bonus, ps[p].player, ps[p].pose, bs[q].pose);
    (
        ps.update(p, PlayerEntry { player: r.1, ..ps[p] }),
        bs.update(q, BonusEntry { bonus: r.0, ..bs[q] }),
    )
}

/// What one collision-start event does: when one entity of the pair
/// resolves to a player and the other to a bonus, the bonus is applied
/// to the player; any other pair changes nothing. The first entity is
/// tried as the player first, matching how events are drained.
pub open spec fn process_event_spec(
    ps: Seq<PlayerEntry>,
    bs: Seq<BonusEntry>,
    ev: CollisionPair,
) -> (Seq<PlayerEntry>, Seq<BonusEntry>) {
    match find_player_from(ps, ev.first, 0) {
        Some(p) => match find_bonus_from(bs, ev.second, 0) {
            Some(q) => apply_at_spec(ps, bs, p, q),
            Option::None => (ps, bs),
        },
        Option::None => match (find_player_from(ps, ev.second, 0), find_bonus_from(bs, ev.first, 0)) {
            (Some(p), Some(q)) => apply_at_spec(ps, bs, p, q),
            _ => (ps, bs),
        },
    }
}

/// The world after a sequence of collision-start events, processed in
/// arrival order.
pub open spec fn process_events_spec(
    ps: Seq<PlayerEntry>,
    bs: Seq<BonusEntry>,
    evs: Seq<CollisionPair>,
) -> (Seq<PlayerEntry>, Seq<BonusEntry>)
    decreases evs.len(),
{
    if evs.len() == 0 {
        (ps, bs)
    } else {
        let r = process_events_spec(ps, bs, evs.drop_last());
        process_event_spec(r.0, r.1, evs.last())
    }
}

/// The entities of the bonuses whose effect is gone, in entry order:
/// exactly the bonuses destroyed at the end of the tick.
pub open spec fn used_bonus_ids(bs: Seq<BonusEntry>) -> Seq<u64>
    decreases bs.len(),
{
    if bs.len() == 0 {
        Seq::empty()
    } else {
        let rest = used_bonus_ids(bs.drop_last());
        if bs.last().bonus.effect is None {
            rest.push(bs.last().entity)
        } else {
            rest
        }
    }
}

/// Every entry's pose satisfies the magnitude bounds of the core.
pub open spec fn entries_wf(ps: Seq<PlayerEntry>, bs: Seq<BonusEntry>) -> bool {
    &&& forall|i: int| 0 <= i < ps.len() ==> (#[trigger] ps[i]).pose.wf()
    &&& forall|i: int| 0 <= i < bs.len() ==> (#[trigger] bs[i]).pose.wf()
}

/// The index of the first player entry with the given entity.
fn find_player(players: &Vec<PlayerEntry>, id: u64) -> (r: Option<usize>)
    ensures
        match r {
            Option::Some(p) => p < players@.len() && find_player_from(players@, id, 0) == Some(
                p as int,
            ),
            Option::None => find_player_from(players@, id, 0) is None,
        },
{
    let n = players.len();
    let mut i: usize = 0;
    while i < n
        invariant
            i <= n,
            n == players@.len(),
            find_player_from(players@, id, 0) == find_player_from(players@, id, i as int),
        decreases n - i,
    {
        if players[i].entity == id {
            return Some(i);
        }
        i = i + 1;
    }
    None
}

/// The index of the first bonus entry with the given entity.
fn find_bonus(bonuses: &Vec<BonusEntry>, id: u64) -> (r: Option<usize>)
    ensures
        match r {
            Option::Some(q) => q < bonuses@.len() && find_bonus_from(bonuses@, id, 0) == Some(
                q as int,
            ),
            Option::None => find_bonus_from(bonuses@, id, 0) is None,
        },
{
    let n = bonuses.len();
    let mut i: usize = 0;
    while i < n
        invariant
            i <= n,
            n == bonuses@.len(),
            find_bonus_from(bonuses@, id, 0) == find_bonus_from(bonuses@, id, i as int),
        decreases n - i,
    {
        if bonuses[i].entity == id {
            return Some(i);
        }
        i = i + 1;
    }
    None
}

/// Applies the bonus at index `q` to the player at index `p`, in place.
fn apply_at(players: &mut Vec<PlayerEntry>, bonuses: &mut Vec<BonusEntry>, p: usize, q: usize)
    requires
        p < old(players)@.len(),
        q < old(bonuses)@.len(),
        entries_wf(old(players)@, old(bonuses)@),
    ensures
        (final(players)@, final(bonuses)@) == apply_at_spec(
            old(players)@,
            old(bonuses)@,
            p as int,
            q as int,
        ),
        entries_wf(final(players)@, final(bonuses)@),
{
    let pt = players[p].pose;
    let bt = bonuses[q].pose;
    let mut pl: Player = players[p].player;
    let mut bo: Bonus = bonuses[q].bonus;
    bo.apply_to(&mut pl, &pt, &bt);
    let pe = PlayerEntry { player: pl, ..players[p] };
    players.set(p, pe);
    let be = BonusEntry { bonus: bo, ..bonuses[q] };
    bonuses.set(q, be);
}

/// Processes one collision-start event, in place.
fn process_event(players: &mut Vec<PlayerEntry>, bonuses: &mut Vec<BonusEntry>, ev: &CollisionPair)
    requires
        entries_wf(old(players)@, old(bonuses)@),
    ensures
        (final(players)@, final(bonuses)@) == process_event_spec(
            old(players)@,
            old(bonuses)@,
            *ev,
        ),
        entries_wf(final(players)@, final(bonuses)@),
{
    match find_player(players, ev.first) {
        Some(p) => {
            match find_bonus(bonuses, ev.second) {
                Some(q) => apply_at(players, bonuses, p, q),
                Option::None => (),
            }
        },
        Option::None => {
            let p2 = find_player(players, ev.second);
            let q2 = find_bonus(bonuses, ev.first);
            match (p2, q2) {
                (Some(p), Some(q)) => apply_at(players, bonuses, p, q),
                _ => (),
            }
        },
    }
}

/// Drains one tick's collision-start events in arrival order, moving
/// each colliding bonus's effect onto the nearest unoccupied edge of
/// the colliding player, then reports the entities of all bonuses left
/// without an effect — the ones to destroy at the end of the tick. A
/// bonus that found no unoccupied edge keeps its effect, is not
/// reported, and is retried on a later overlapping tick.
pub fn bonus_pickup(
    players: &mut Vec<PlayerEntry>,
    bonuses: &mut Vec<BonusEntry>,
    events: &Vec<CollisionPair>,
) -> (despawn: Vec<u64>)
    requires
        entries_wf(old(players)@, old(bonuses)@),
    ensures
        (final(players)@, final(bonuses)@) == process_events_spec(
            old(players)@,
            old(bonuses)@,
            events@,
        ),
        despawn@ == used_bonus_ids(final(bonuses)@),
{
    let ghost ps0 = players@;
    let ghost bs0 = bonuses@;
    let n = events.len();
    let mut k: usize = 0;
    proof {
        assert(events@.take(0) =~= Seq::<CollisionPair>::empty());
    }
    while k < n
        invariant
            k <= n,
            n == events@.len(),
            entries_wf(players@, bonuses@),
            (players@, bonuses@) == process_events_spec(ps0, bs0, events@.take(k as int)),
        decreases n - k,
    {
        process_event(players, bonuses, &events[k]);
        proof {
            assert(events@.take(k + 1).drop_last() =~= events@.take(k as int));
            assert(events@.take(k + 1).last() == events@[k as int]);
        }
        k = k + 1;
    }
    proof {
        assert(events@.take(n as int) =~= events@);
    }

    let mut despawn: Vec<u64> = Vec::new();
    let m = bonuses.len();
    let mut j: usize = 0;
    proof {
        assert(bonuses@.take(0) =~= Seq::<BonusEntry>::empty());
    }
    while j < m
        invariant
            j <= m,
            m == bonuses@.len(),
            despawn@ == used_bonus_ids(bonuses@.take(j as int)),
        decreases m - j,
    {
        proof {
            assert(bonuses@.take(j + 1).drop_last() =~= bonuses@.take(j as int));
            assert(bonuses@.take(j + 1).last() == bonuses@[j as int]);
        }
        if bonuses[j].bonus.effect.is_none() {
            despawn.push(bonuses[j].entity);
        }
        j = j + 1;
    }
    proof {
        assert(bonuses@.take(m as int) =~= bonuses@);
    }
    despawn
}

} // verus!
