//! The leader scheduler: which validator owns the block after a given height.

use vstd::prelude::*;
use vstd::arithmetic::div_mod::{lemma_mod_add_multiples_vanish, lemma_small_mod};

verus! {

/// The height of the block after `height`, held at the largest height there is.
pub open spec fn next_height(height: u64) -> int {
    if height < u64::MAX {
        height + 1
    } else {
        u64::MAX as int
    }
}

/// The validator that owns the block after `height`.
pub open spec fn slot_at(height: u64, total: u32) -> int
    recommends
        total > 0,
{
    next_height(height) % (total as int)
}

/// Whether validator `id` owns the block after `height`.
pub open spec fn turn_of(height: u64, id: u32, total: u32) -> bool
    recommends
        total > 0,
{
    slot_at(height, total) == id
}

/// How many of the `len` heights from `start` on give the next block to `id`.
pub open spec fn turns_in_run(start: u64, len: nat, id: u32, total: u32) -> nat
    recommends
        total > 0,
        start + len <= u64::MAX,
    decreases len,
{
    if len == 0 {
        0
    } else {
        let earlier = turns_in_run(start, (len - 1) as nat, id, total);
        if turn_of((start + len - 1) as u64, id, total) {
            earlier + 1
        } else {
            earlier
        }
    }
}

/// Computes the slot after `height`. The height is stepped with saturation and
/// reduced modulo the roster size before it is narrowed.
pub fn next_slot(height: u64, total: u32) -> (slot: u32)
    requires
        total > 0,
    ensures
        slot == slot_at(height, total),
        slot < total,
        height < u64::MAX ==> slot == (height + 1) % (total as int),
{
    let next: u64 = height.saturating_add(1);
    let reduced: u64 = next % (total as u64);
    reduced as u32
}

/// Whether validator `id` produces the block after `height`. The answer is a
/// function of the three arguments alone: asking again gives the same answer.
pub fn is_my_turn(height: u64, id: u32, total: u32) -> (mine: bool)
    requires
        total > 0,
    ensures
        mine == turn_of(height, id, total),
        height < u64::MAX ==> (mine <==> (height + 1) % (total as int) == id),
{
    next_slot(height, total) == id
}

/// Two answers of the scheduler for the same height, validator and roster
/// size agree: nothing else goes into the answer.
pub proof fn lemma_turn_is_determined(height: u64, id: u32, total: u32, first: bool, second: bool)
    requires
        total > 0,
        first == turn_of(height, id, total),
        second == turn_of(height, id, total),
    ensures
        first == second,
{
}

/// At every height exactly one validator of the roster has the turn: the one
/// whose id is the slot.
pub proof fn lemma_exactly_one_turn(height: u64, total: u32)
    requires
        total > 0,
    ensures
        0 <= slot_at(height, total) < total,
        turn_of(height, slot_at(height, total) as u32, total),
        forall|id: u32| turn_of(height, id, total) ==> id == slot_at(height, total),
{
}

/// Two validators never have the turn at the same height.
pub proof fn lemma_turns_exclusive(height: u64, first: u32, second: u32, total: u32)
    requires
        total > 0,
        turn_of(height, first, total),
        turn_of(height, second, total),
    ensures
        first == second,
{
}

spec fn hits(start: int, len: nat, id: int, total: int) -> nat
    decreases len,
{
    if len == 0 {
        0
    } else {
        let earlier = hits(start, (len - 1) as nat, id, total);
        if (start + len) % total == id {
            earlier + 1
        } else {
            earlier
        }
    }
}

proof fn lemma_hits_split(start: int, a: nat, b: nat, id: int, total: int)
    ensures
        hits(start, a + b, id, total) == hits(start, a, id, total) + hits(start + a, b, id, total),
    decreases b,
{
    if b > 0 {
        lemma_hits_split(start, a, (b - 1) as nat, id, total);
        assert(a + (b - 1) as nat == (a + b - 1) as nat);
    }
}

proof fn lemma_hits_from_origin(len: nat, id: int, total: int)
    requires
        0 <= id < total,
        len <= total,
    ensures
        hits(-1, len, id, total) == if id < len { 1nat } else { 0nat },
    decreases len,
{
    if len > 0 {
        lemma_hits_from_origin((len - 1) as nat, id, total);
        lemma_small_mod((len - 1) as nat, total as nat);
    }
}

proof fn lemma_hits_window(start: int, id: int, total: int)
    requires
        0 <= id < total,
        start >= -1,
    ensures
        hits(start, total as nat, id, total) == 1,
    decreases start + 1,
{
    if start == -1 {
        lemma_hits_from_origin(total as nat, id, total);
    } else {
        let before = start - 1;
        lemma_hits_window(before, id, total);
        lemma_hits_split(before, 1, total as nat, id, total);
        assert(hits(before, 1, id, total) == hits(before, 0, id, total) + if (before + 1) % total
            == id { 1nat } else { 0nat });
        lemma_mod_add_multiples_vanish(before + 1, total);
    }
}

proof fn lemma_hits_rounds(start: int, rounds: nat, id: int, total: int)
    requires
        0 <= id < total,
        start >= -1,
    ensures
        hits(start, rounds * (total as nat), id, total) == rounds,
    decreases rounds,
{
    if rounds > 0 {
        let done = (rounds - 1) as nat;
        lemma_hits_rounds(start, done, id, total);
        assert(rounds * (total as nat) == done * (total as nat) + (total as nat))
            by (nonlinear_arith)
            requires
                done == rounds - 1,
        ;
        lemma_hits_split(start, done * (total as nat), total as nat, id, total);
        lemma_hits_window(start + done * (total as nat), id, total);
    } else {
        assert(rounds * (total as nat) == 0) by (nonlinear_arith)
            requires
                rounds == 0,
        ;
    }
}

proof fn lemma_turns_are_hits(start: u64, len: nat, id: u32, total: u32)
    requires
        total > 0,
        start + len <= u64::MAX,
    ensures
        turns_in_run(start, len, id, total) == hits(start as int, len, id as int, total as int),
    decreases len,
{
    if len > 0 {
        lemma_turns_are_hits(start, (len - 1) as nat, id, total);
    }
}

/// Over `rounds` times `total` consecutive heights every validator of the
/// roster has the turn exactly `rounds` times. The run must end before the
/// largest height, where stepping saturates.
pub proof fn lemma_round_robin_fair(start: u64, rounds: nat, id: u32, total: u32)
    requires
        total > 0,
        id < total,
        start + rounds * total <= u64::MAX,
    ensures
        turns_in_run(start, rounds * (total as nat), id, total) == rounds,
{
    lemma_turns_are_hits(start, rounds * (total as nat), id, total);
    lemma_hits_rounds(start as int, rounds, id as int, total as int);
}

} // verus!
