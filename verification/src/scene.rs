//! The population of the scene: how it starts out, and what a tick's mouse clicks do
//! to it.
//!
//! A released left button doubles the target and spawns the difference; a released
//! right button halves it and despawns the difference. Where both are released in one
//! tick the left one is handled first, and both differences are taken against the
//! target the tick began with.

use crate::registry::{despawned_by, fresh_ids, reconciled, spawned_by, Registry};
use crate::stats::{doubled, halved, Stats};
use vstd::prelude::*;

verus! {

/// The rectangles that a tick's clicks created and removed.
pub struct Changes {
    pub spawned: Vec<u64>,
    pub despawned: Vec<u64>,
}

/// The target once the left button has been handled.
pub open spec fn target_after_left(target: nat, left_released: bool) -> nat {
    if left_released {
        doubled(target)
    } else {
        target
    }
}

/// The target at the end of the tick.
pub open spec fn target_after(target: nat, left_released: bool, right_released: bool) -> nat {
    if right_released {
        halved(target_after_left(target, left_released))
    } else {
        target_after_left(target, left_released)
    }
}

/// What the left button asks of the registry: the new target less the old one.
pub open spec fn left_delta(target: nat, left_released: bool) -> int {
    target_after_left(target, left_released) - target
}

/// What the right button asks of the registry: the old target less the new one, to be
/// removed.
pub open spec fn right_delta(target: nat, left_released: bool, right_released: bool) -> int {
    if right_released {
        -(target - target_after(target, left_released, right_released))
    } else {
        0
    }
}

/// The registry as the scene begins: one rectangle for each that `stats` asks for.
pub fn setup(stats: &Stats) -> (registry: Registry)
    ensures
        registry@ == fresh_ids(0, stats.count as nat),
        registry.next_id() == stats.count,
{
    let mut registry = Registry::new();
    registry.reconcile(stats.count as i64);
    registry
}

/// The clicks can be handled: a doubled target is still a count, and there are
/// identifiers left for the rectangles that it asks for.
pub open spec fn clicks_fit(target: nat, next: nat, left_released: bool) -> bool {
    left_released ==> 2 * target <= u32::MAX && next + left_delta(target, true) <= u64::MAX
}

/// Whether `mouse_handler` can handle these clicks. It cannot where the left button
/// was released and twice the target is no `u32`, or the registry has run out of
/// identifiers.
pub fn can_handle(stats: &Stats, registry: &Registry, left_released: bool) -> (fit: bool)
    ensures
        fit == clicks_fit(stats.count as nat, registry.next_id(), left_released),
{
    if left_released {
        if stats.count > u32::MAX / 2 {
            false
        } else {
            let spawn: u32 = if stats.count == 0 {
                1
            } else {
                stats.count
            };
            registry.next() <= u64::MAX - spawn as u64
        }
    } else {
        true
    }
}

/// Applies one tick's clicks to the target and to the registry.
pub fn mouse_handler(
    stats: &mut Stats,
    registry: &mut Registry,
    left_released: bool,
    right_released: bool,
) -> (changes: Changes)
    requires
        clicks_fit(old(stats).count as nat, old(registry).next_id(), left_released),
    ensures
        final(stats).count == target_after(
            old(stats).count as nat,
            left_released,
            right_released,
        ),
        ({
            let target = old(stats).count as nat;
            let next = old(registry).next_id();
            let grow = left_delta(target, left_released);
            let shrink = right_delta(target, left_released, right_released);
            let grown = reconciled(old(registry)@, next, grow);
            &&& changes.spawned@ == spawned_by(next, grow)
            &&& changes.despawned@ == despawned_by(grown, shrink)
            &&& final(registry)@ == reconciled(grown, (next + grow) as nat, shrink)
            &&& final(registry).next_id() == next + grow
        }),
{
    let target: u32 = stats.count;
    let mut changes = Changes { spawned: Vec::new(), despawned: Vec::new() };
    if left_released {
        stats.double();
        changes.spawned = registry.reconcile((stats.count - target) as i64);
    }
    if right_released {
        stats.halve();
        changes.despawned = registry.reconcile(-((target - stats.count) as i64));
    }
    changes
}

/// Growing: where a target is doubled from `old_target` to `new_target`, there is a
/// difference to spawn, and reconciling by it makes the registry larger by exactly
/// `new_target - old_target`.
pub proof fn lemma_doubling_grows(live: Seq<u64>, next: nat, old_target: nat, new_target: nat)
    requires
        new_target == doubled(old_target),
    ensures
        new_target - old_target > 0,
        reconciled(live, next, new_target - old_target).len() == live.len() + (new_target
            - old_target),
{
}

/// Shrinking: where a target is halved from `old_target` to `new_target`, reconciling
/// by the difference makes the registry smaller by exactly `old_target - new_target`
/// where it holds that many rectangles, and empties it where it holds fewer; its size
/// never falls below zero.
pub proof fn lemma_halving_shrinks(live: Seq<u64>, next: nat, old_target: nat, new_target: nat)
    requires
        new_target == halved(old_target),
    ensures
        old_target - new_target >= 0,
        live.len() >= old_target - new_target ==> reconciled(
            live,
            next,
            -(old_target - new_target),
        ).len() == live.len() - (old_target - new_target),
        live.len() < old_target - new_target ==> reconciled(
            live,
            next,
            -(old_target - new_target),
        ).len() == 0,
{
}

/// A tick in which at most one button is released keeps the registry as large as the
/// target, if it was so before.
pub proof fn lemma_registry_follows_target(
    live: Seq<u64>,
    next: nat,
    target: nat,
    left_released: bool,
    right_released: bool,
)
    requires
        live.len() == target,
        !(left_released && right_released),
    ensures
        reconciled(
            reconciled(live, next, left_delta(target, left_released)),
            (next + left_delta(target, left_released)) as nat,
            right_delta(target, left_released, right_released),
        ).len() == target_after(target, left_released, right_released),
{
}

} // verus!
