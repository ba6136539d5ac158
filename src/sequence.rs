//! The per-millisecond sequence: a cycle 1, 2, ..., `MAX_SEQUENCE`, 1, ...
//! drawn from a shared counter. The call that draws `MAX_SEQUENCE` has used
//! up the cycle and must let the clock move on before it reads it.
use vstd::prelude::*;
use crate::layout::MAX_SEQUENCE;

verus! {

/// The sequence value that a counter value stands for. The counter normally
/// holds 1 to `MAX_SEQUENCE`; a value that ran past `MAX_SEQUENCE` (several
/// callers drew before the reset) goes on around the same cycle.
pub open spec fn ticket_sequence(count: u64) -> u64 {
    ((count - 1) % (MAX_SEQUENCE as int) + 1) as u64
}

/// Whether the caller that drew sequence value `sequence` must wait for the
/// next millisecond: it drew the last value of the cycle.
pub open spec fn stalls(sequence: u64) -> bool {
    sequence == MAX_SEQUENCE
}

/// The counter after one draw on `count` with no other caller in between:
/// one more, or back to 1 once the last value of the cycle was drawn.
pub open spec fn next_count(count: u64) -> u64 {
    if stalls(ticket_sequence(count)) {
        1
    } else {
        (count + 1) as u64
    }
}

/// The counter after `k` draws from `count` with no other caller in between.
pub open spec fn count_after(count: u64, k: nat) -> u64
    decreases k,
{
    if k == 0 {
        count
    } else {
        next_count(count_after(count, (k - 1) as nat))
    }
}

/// The sequence value that a counter value stands for.
pub fn sequence_of_count(count: u64) -> (r: u64)
    ensures
        r == ticket_sequence(count),
        1 <= r <= MAX_SEQUENCE,
{
    if count == 0 {
        MAX_SEQUENCE
    } else {
        (count - 1) % MAX_SEQUENCE + 1
    }
}

/// From a counter in its normal range, `k` draws by one caller move it `k`
/// steps along the cycle.
pub proof fn lemma_count_after(count: u64, k: nat)
    requires
        1 <= count <= MAX_SEQUENCE,
    ensures
        count_after(count, k) == (count - 1 + k) % (MAX_SEQUENCE as int) + 1,
    decreases k,
{
    if k > 0 {
        lemma_count_after(count, (k - 1) as nat);
        let p = count_after(count, (k - 1) as nat);
        assert(ticket_sequence(p) == p);
    }
}

/// Within any `MAX_SEQUENCE` consecutive draws by one caller on a counter in
/// its normal range, one draw takes the last value of the cycle and so waits
/// for the clock.
pub proof fn lemma_stall_within_cycle(count: u64)
    requires
        1 <= count <= MAX_SEQUENCE,
    ensures
        exists|k: nat|
            k < MAX_SEQUENCE && #[trigger] stalls(ticket_sequence(count_after(count, k))),
{
    let k = (MAX_SEQUENCE - count) as nat;
    lemma_count_after(count, k);
    assert(stalls(ticket_sequence(count_after(count, k))));
}

/// Within any `MAX_SEQUENCE` consecutive draws by one caller on a counter in
/// its normal range, no two draws take the same sequence value.
pub proof fn lemma_distinct_within_cycle(count: u64, i: nat, j: nat)
    requires
        1 <= count <= MAX_SEQUENCE,
        i < j < MAX_SEQUENCE,
    ensures
        ticket_sequence(count_after(count, i)) != ticket_sequence(count_after(count, j)),
{
    lemma_count_after(count, i);
    lemma_count_after(count, j);
}

} // verus!
