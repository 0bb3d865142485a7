use vstd::prelude::*;

verus! {

/// The index one step forward in a cyclic range of `n` slots, wrapping to
/// `0` past the end. A stale index (`i + 1 > n`) also lands on `0`, so for
/// `n >= 1` the result is always in range.
pub open spec fn next_idx(i: int, n: int) -> int {
    if i + 1 >= n {
        0
    } else {
        i + 1
    }
}

/// The index one step back in a cyclic range of `n` slots, wrapping to
/// `n - 1` from `0`. A stale index (`i >= n`) also lands on `n - 1`, so for
/// `n >= 1` the result is always in range.
pub open spec fn prev_idx(i: int, n: int) -> int {
    if i == 0 || i >= n {
        n - 1
    } else {
        i - 1
    }
}

/// One step forward over `n` slots, as `next_idx` describes.
pub fn step_forward(i: usize, n: usize) -> (r: usize)
    requires
        n >= 1,
    ensures
        r == next_idx(i as int, n as int),
        r < n,
{
    if i >= n - 1 {
        0
    } else {
        i + 1
    }
}

/// One step back over `n` slots, as `prev_idx` describes.
pub fn step_back(i: usize, n: usize) -> (r: usize)
    requires
        n >= 1,
    ensures
        r == prev_idx(i as int, n as int),
        r < n,
{
    if i == 0 || i >= n {
        n - 1
    } else {
        i - 1
    }
}

/// The index reached from `i` after `k` forward steps over `n` slots.
pub open spec fn forward_steps(i: int, n: int, k: nat) -> int
    decreases k,
{
    if k == 0 {
        i
    } else {
        next_idx(forward_steps(i, n, (k - 1) as nat), n)
    }
}

/// The index reached from `i` after `k` backward steps over `n` slots.
pub open spec fn back_steps(i: int, n: int, k: nat) -> int
    decreases k,
{
    if k == 0 {
        i
    } else {
        prev_idx(back_steps(i, n, (k - 1) as nat), n)
    }
}

/// A step back undoes a step forward and a step forward undoes a step
/// back: the two board-switching moves are inverse to each other on any
/// non-empty board list.
pub proof fn lemma_step_round_trip(i: int, n: int)
    requires
        n >= 1,
        0 <= i < n,
    ensures
        prev_idx(next_idx(i, n), n) == i,
        next_idx(prev_idx(i, n), n) == i,
{
}

proof fn lemma_forward_steps_linear(i: int, n: int, k: nat)
    requires
        n >= 1,
        0 <= i < n,
        k <= n,
    ensures
        forward_steps(i, n, k) == if i + k < n {
            i + k
        } else {
            i + k - n
        },
    decreases k,
{
    if k > 0 {
        lemma_forward_steps_linear(i, n, (k - 1) as nat);
    }
}

proof fn lemma_back_steps_linear(i: int, n: int, k: nat)
    requires
        n >= 1,
        0 <= i < n,
        k <= n,
    ensures
        back_steps(i, n, k) == if i - k >= 0 {
            i - k
        } else {
            i - k + n
        },
    decreases k,
{
    if k > 0 {
        lemma_back_steps_linear(i, n, (k - 1) as nat);
    }
}

/// Stepping forward exactly `n` times over `n` slots returns to the
/// starting index: the wrap-around walk is a true cycle of length `n`.
pub proof fn lemma_forward_cycle(i: int, n: int)
    requires
        n >= 1,
        0 <= i < n,
    ensures
        forward_steps(i, n, n as nat) == i,
{
    lemma_forward_steps_linear(i, n, n as nat);
}

/// Stepping back exactly `n` times over `n` slots returns to the starting
/// index, the mirror image of the forward cycle.
pub proof fn lemma_back_cycle(i: int, n: int)
    requires
        n >= 1,
        0 <= i < n,
    ensures
        back_steps(i, n, n as nat) == i,
{
    lemma_back_steps_linear(i, n, n as nat);
}

} // verus!
