//! What the player does each frame: walk, gather experience, and level up.

use crate::bounding::{Aabb2d, BoundingCircle};
use crate::bundles::ExpCrumbBundle;
use crate::clock::duration_nanos;
use crate::components::{
    CrumbCollectRadius, ExpGain, Health, PlayerExperience, PlayerLevel, Speed, Transform,
};
use crate::events::{MoveDirection, PlayerMoveEvent};
use crate::geometry::{axis_step, step_of, Vector, UNIT, WORLD_LIMIT};
use crate::states::{GameState, NextState};
use std::time::Duration;
use vstd::prelude::*;

verus! {

/// The length of one step of the player: its speed times the time.
pub open spec fn stride(speed: Speed, nanos: nat) -> int {
    axis_step(UNIT as int, speed.0 as nat, nanos)
}

/// One step of the given length: up and right count upward.
pub open spec fn step_toward(direction: MoveDirection, length: int) -> Vector {
    match direction {
        MoveDirection::Up => Vector { x: 0, y: length as i64 },
        MoveDirection::Down => Vector { x: 0, y: (-length) as i64 },
        MoveDirection::Left => Vector { x: (-length) as i64, y: 0 },
        MoveDirection::Right => Vector { x: length as i64, y: 0 },
    }
}

/// Where the player is after the steps, taken in order, each one stopping
/// at the border of the world.
pub open spec fn walked(position: Vector, moves: Seq<PlayerMoveEvent>, length: int) -> Vector
    decreases moves.len(),
{
    if moves.len() == 0 {
        position
    } else {
        walked(position, moves.drop_last(), length).moved(step_toward(moves.last().0, length))
    }
}

/// Walks the player as the steps of this frame ask, each step as long as
/// the player's speed times `delta`.
pub fn move_player(
    transform: &mut Transform,
    speed: &Speed,
    moves: &Vec<PlayerMoveEvent>,
    delta: &Duration,
)
    ensures
        final(transform).translation == walked(
            old(transform).translation,
            moves@,
            stride(*speed, duration_nanos(*delta)),
        ),
{
    let ahead = Vector { x: UNIT, y: 0 };
    let length: i64 = step_of(&ahead, speed.0, delta).x;
    let mut i: usize = 0;
    while i < moves.len()
        invariant
            i <= moves.len(),
            length == stride(*speed, duration_nanos(*delta)),
            -2_199_023_255_552 <= length <= 2_199_023_255_552,
            transform.translation == walked(
                old(transform).translation,
                moves@.take(i as int),
                length as int,
            ),
        decreases moves.len() - i,
    {
        proof {
            let upto = moves@.take(i as int + 1);
            assert(upto.drop_last() == moves@.take(i as int));
            assert(upto.last() == moves[i as int]);
        }
        let step = match moves[i].0 {
            MoveDirection::Up => Vector { x: 0, y: length },
            MoveDirection::Down => Vector { x: 0, y: -length },
            MoveDirection::Left => Vector { x: -length, y: 0 },
            MoveDirection::Right => Vector { x: length, y: 0 },
        };
        transform.translation = transform.translation.translate(step);
        i += 1;
    }
    proof {
        assert(moves@.take(moves.len() as int) == moves@);
    }
}

/// Leaves a pickup where an enemy died: where its hit points changed in
/// this frame and are zero or less.
pub fn drop_crumbs(tr: &Transform, health: &Health, changed: bool) -> (crumb: Option<ExpCrumbBundle>)
    ensures
        crumb == if changed && health.0 <= 0 {
            Some(ExpCrumbBundle::dropped_at(*tr))
        } else {
            None
        },
{
    if changed && health.0 <= 0 {
        Some(ExpCrumbBundle::with_transform(*tr))
    } else {
        None
    }
}

/// The pickup is within the player's reach.
pub open spec fn in_reach(player: Vector, radius: CrumbCollectRadius, crumb: ExpCrumbBundle) -> bool {
    (BoundingCircle { center: player, radius: radius.0 }).reaches(crumb.sprite.hitbox())
}

/// The experience that the pickups within reach give, added up.
pub open spec fn gathered(
    player: Vector,
    radius: CrumbCollectRadius,
    crumbs: Seq<ExpCrumbBundle>,
) -> nat
    decreases crumbs.len(),
{
    if crumbs.len() == 0 {
        0
    } else {
        gathered(player, radius, crumbs.drop_last()) + if in_reach(player, radius, crumbs.last()) {
            crumbs.last().gain.0 as nat
        } else {
            0nat
        }
    }
}

/// The experience after `gain` more, which stops at the greatest number it
/// can hold.
pub open spec fn experience_after(experience: nat, gain: nat) -> nat {
    if experience + gain > u32::MAX {
        u32::MAX as nat
    } else {
        experience + gain
    }
}

/// Gathers the pickups within the player's reach.
///
/// Each such pickup adds its gain to the experience and is to be removed:
/// the first result says so for each pickup. The second result says whether
/// a level-up is due: there was a pickup to look at, and the experience has
/// reached the threshold of the next level.
pub fn collect_crumbs(
    player_tr: &Transform,
    player_radius: &CrumbCollectRadius,
    player_level: &PlayerLevel,
    crumbs: &Vec<ExpCrumbBundle>,
    exp: &mut PlayerExperience,
) -> (outcome: (Vec<bool>, bool))
    requires
        player_tr.translation.in_world(),
        0 <= player_radius.0 <= WORLD_LIMIT,
        forall|i: int| 0 <= i < crumbs.len() ==> (#[trigger] crumbs[i]).sprite.wf(),
    ensures
        outcome.0.len() == crumbs.len(),
        forall|i: int|
            0 <= i < crumbs.len() ==> #[trigger] outcome.0[i] == in_reach(
                player_tr.translation,
                *player_radius,
                crumbs[i],
            ),
        final(exp).0 == experience_after(
            old(exp).0 as nat,
            gathered(player_tr.translation, *player_radius, crumbs@),
        ),
        outcome.1 == (crumbs.len() > 0 && player_level.next_level_delta.0 <= final(exp).0),
{
    let circle = BoundingCircle::new(player_tr.translation, player_radius.0);
    let mut taken: Vec<bool> = Vec::new();
    let mut level_up = false;
    let mut i: usize = 0;
    while i < crumbs.len()
        invariant
            i <= crumbs.len(),
            taken.len() == i,
            circle == (BoundingCircle { center: player_tr.translation, radius: player_radius.0 }),
            circle.wf(),
            forall|k: int| 0 <= k < crumbs.len() ==> (#[trigger] crumbs[k]).sprite.wf(),
            forall|k: int|
                0 <= k < i ==> #[trigger] taken[k] == in_reach(
                    player_tr.translation,
                    *player_radius,
                    crumbs[k],
                ),
            exp.0 == experience_after(
                old(exp).0 as nat,
                gathered(player_tr.translation, *player_radius, crumbs@.take(i as int)),
            ),
            level_up == (i > 0 && player_level.next_level_delta.0 <= exp.0),
        decreases crumbs.len() - i,
    {
        proof {
            let upto = crumbs@.take(i as int + 1);
            assert(upto.drop_last() == crumbs@.take(i as int));
            assert(upto.last() == crumbs[i as int]);
        }
        let crumb = &crumbs[i];
        let crumb_box = crumb.sprite.bounding_box();
        let reached = circle.intersects(&crumb_box);
        if reached {
            let gain: u32 = crumb.gain.0;
            exp.0 = if gain > u32::MAX - exp.0 {
                u32::MAX
            } else {
                exp.0 + gain
            };
        }
        taken.push(reached);
        if player_level.next_level_delta.0 <= exp.0 {
            level_up = true;
        }
        i += 1;
    }
    proof {
        assert(crumbs@.take(crumbs.len() as int) == crumbs@);
    }
    (taken, level_up)
}

/// The number of times `n` can be halved before it is one: the whole part
/// of its logarithm to the base two.
pub open spec fn floor_log2(n: nat) -> nat
    decreases n,
{
    if n <= 1 {
        0
    } else {
        1 + floor_log2(n / 2)
    }
}

/// Two to the power of `e`.
pub open spec fn power_of_two(e: nat) -> nat
    decreases e,
{
    if e == 0 {
        1
    } else {
        2 * power_of_two((e - 1) as nat)
    }
}

/// `floor_log2(n)` is the greatest exponent whose power of two is at most `n`.
pub proof fn lemma_floor_log2_bounds(n: nat)
    requires
        n >= 1,
    ensures
        power_of_two(floor_log2(n)) <= n < 2 * power_of_two(floor_log2(n)),
    decreases n,
{
    if n > 1 {
        lemma_floor_log2_bounds(n / 2);
    }
}

/// The logarithm of a number of thirty-two bits is below thirty-two.
pub proof fn lemma_floor_log2_small(n: nat)
    requires
        1 <= n <= u32::MAX,
    ensures
        floor_log2(n) < 32,
{
    lemma_floor_log2_bounds(n);
    if floor_log2(n) >= 32 {
        lemma_power_of_two_at_least(32, floor_log2(n));
        assert(power_of_two(32) == 4_294_967_296) by {
            reveal_with_fuel(power_of_two, 33);
        }
    }
}

/// The whole part of the logarithm of `n` to the base two.
pub fn ilog2(n: u32) -> (log: u32)
    requires
        n >= 1,
    ensures
        log == floor_log2(n as nat),
        log < 32,
{
    let mut rest: u32 = n;
    let mut log: u32 = 0;
    proof {
        lemma_floor_log2_small(n as nat);
    }
    while rest > 1
        invariant
            rest >= 1,
            log + floor_log2(rest as nat) == floor_log2(n as nat),
            floor_log2(n as nat) < 32,
        decreases rest,
    {
        rest = rest / 2;
        log = log + 1;
    }
    log
}

/// Every power of two is at least one.
pub proof fn lemma_power_of_two_grows(e: nat)
    ensures
        power_of_two(e) >= 1,
        power_of_two(e + 1) == 2 * power_of_two(e),
    decreases e,
{
    if e > 0 {
        lemma_power_of_two_grows((e - 1) as nat);
    }
}

/// A greater exponent gives a power of two that is no less.
pub proof fn lemma_power_of_two_at_least(low: nat, high: nat)
    requires
        low <= high,
    ensures
        power_of_two(low) <= power_of_two(high),
    decreases high,
{
    if low < high {
        lemma_power_of_two_at_least(low, (high - 1) as nat);
        lemma_power_of_two_grows((high - 1) as nat);
    }
}

/// The threshold of the level after one with threshold `threshold`: five
/// times the whole part of its logarithm to the base two more, as far as the
/// number can hold it.
pub open spec fn next_threshold(threshold: nat) -> nat {
    if threshold + 5 * floor_log2(threshold) > u32::MAX {
        u32::MAX as nat
    } else {
        threshold + 5 * floor_log2(threshold)
    }
}

/// The threshold after `levels` level-ups that start from `threshold`.
pub open spec fn threshold_after(threshold: nat, levels: nat) -> nat
    decreases levels,
{
    if levels == 0 {
        threshold
    } else {
        next_threshold(threshold_after(threshold, (levels - 1) as nat))
    }
}

impl PlayerLevel {
    /// The threshold is not zero, so its logarithm is defined.
    pub open spec fn wf(self) -> bool {
        self.next_level_delta.0 >= 1
    }

    /// The level above: one more, with the next threshold.
    pub open spec fn raised(self) -> PlayerLevel {
        PlayerLevel {
            level: if self.level == u32::MAX {
                u32::MAX
            } else {
                (self.level + 1) as u32
            },
            next_level_delta: ExpGain(next_threshold(self.next_level_delta.0 as nat) as u32),
        }
    }

    /// The level after `levels` level-ups.
    pub open spec fn raised_times(self, levels: nat) -> PlayerLevel
        decreases levels,
    {
        if levels == 0 {
            self
        } else {
            self.raised_times((levels - 1) as nat).raised()
        }
    }
}

/// Raises the player's level if a level-up is due, at most once a frame.
///
/// The level goes up by one, the threshold of the next level grows by five
/// times the whole part of its logarithm to the base two, the experience
/// starts again from zero, and the game is asked to show the upgrades. If no
/// level-up is due nothing changes.
pub fn level_up(
    due: bool,
    level: &mut PlayerLevel,
    game_state: &mut NextState,
    player_exp: &mut PlayerExperience,
)
    requires
        old(level).wf(),
    ensures
        due ==> *final(level) == old(level).raised(),
        due ==> *final(player_exp) == PlayerExperience(0),
        due ==> *final(game_state) == NextState(Some(GameState::Upgrading)),
        !due ==> *final(level) == *old(level) && *final(player_exp) == *old(player_exp)
            && *final(game_state) == *old(game_state),
        final(level).wf(),
{
    if due {
        game_state.set(GameState::Upgrading);
        if level.level < u32::MAX {
            level.level = level.level + 1;
        }
        let threshold: u32 = level.next_level_delta.0;
        let more: u32 = 5 * ilog2(threshold);
        level.next_level_delta = ExpGain(
            if more > u32::MAX - threshold {
                u32::MAX
            } else {
                threshold + more
            },
        );
        player_exp.0 = 0;
    }
}

/// After any number of level-ups in a row the threshold is what the rule
/// gives, step by step: each one is the one before plus five times the whole
/// part of its logarithm to the base two, as long as the number can hold it.
pub proof fn lemma_thresholds_follow_rule(start: PlayerLevel, levels: nat)
    requires
        start.wf(),
    ensures
        start.raised_times(levels).wf(),
        start.raised_times(levels).next_level_delta.0 == threshold_after(
            start.next_level_delta.0 as nat,
            levels,
        ),
        start.level + levels <= u32::MAX ==> start.raised_times(levels).level == start.level
            + levels,
        threshold_after(start.next_level_delta.0 as nat, levels) + 5 * floor_log2(
            threshold_after(start.next_level_delta.0 as nat, levels),
        ) <= u32::MAX ==> threshold_after(start.next_level_delta.0 as nat, levels + 1)
            == threshold_after(start.next_level_delta.0 as nat, levels) + 5 * floor_log2(
            threshold_after(start.next_level_delta.0 as nat, levels),
        ),
    decreases levels,
{
    if levels > 0 {
        lemma_thresholds_follow_rule(start, (levels - 1) as nat);
    }
    assert(threshold_after(start.next_level_delta.0 as nat, levels + 1) == next_threshold(
        threshold_after(start.next_level_delta.0 as nat, levels),
    ));
}

} // verus!
