use vstd::prelude::*;
use vstd::arithmetic::div_mod::{lemma_mod_self_0, lemma_small_mod, lemma_add_mod_noop};

verus! {

/// The index of the engineer who takes over from `current` among `count`
/// engineers: the next one, or the first one after the last.
pub open spec fn next_index(current: int, count: int) -> int {
    if current + 1 < count {
        current + 1
    } else {
        0
    }
}

/// The index on duty after `k` handovers, starting from `start`.
pub open spec fn rotated(start: int, count: int, k: nat) -> int
    decreases k,
{
    if k == 0 {
        start
    } else {
        next_index(rotated(start, count, (k - 1) as nat), count)
    }
}

/// The index that follows `current` when duty passes on among `count` engineers.
pub fn next_duty_index(current: usize, count: usize) -> (r: usize)
    requires
        count > 0,
        current < usize::MAX,
    ensures
        r == next_index(current as int, count as int),
        r < count,
{
    let next = current + 1;
    if next > count - 1 {
        0
    } else {
        next
    }
}

/// After `k` handovers from a valid index, the index on duty is `start + k`
/// taken modulo the number of engineers.
pub proof fn lemma_rotated_is_shift(start: int, count: int, k: nat)
    requires
        0 <= start < count,
    ensures
        rotated(start, count, k) == (start + k) % count,
    decreases k,
{
    if k == 0 {
        lemma_small_mod(start as nat, count as nat);
    } else {
        lemma_rotated_is_shift(start, count, (k - 1) as nat);
        let x = (start + k - 1) % count;
        assert(0 <= x < count);
        lemma_add_mod_noop(start + k - 1, 1, count);
        if count == 1 {
            assert((start + k) % count == 0);
        } else {
            lemma_small_mod(1, count as nat);
            if x + 1 < count {
                lemma_small_mod((x + 1) as nat, count as nat);
            } else {
                lemma_mod_self_0(count);
            }
        }
    }
}

/// Handing duty on never leaves the list: from a valid index every later
/// index is valid too.
pub proof fn rotation_stays_in_range(start: int, count: int, k: nat)
    requires
        0 <= start < count,
    ensures
        0 <= rotated(start, count, k) < count,
{
    lemma_rotated_is_shift(start, count, k);
}

/// After as many handovers as there are engineers, duty is back with the
/// engineer it started with.
pub proof fn rotation_returns_after_full_round(start: int, count: int)
    requires
        0 <= start < count,
    ensures
        rotated(start, count, count as nat) == start,
{
    lemma_rotated_is_shift(start, count, count as nat);
    lemma_add_mod_noop(start, count, count);
    lemma_mod_self_0(count);
    lemma_small_mod(start as nat, count as nat);
}

/// Every engineer gets duty within one round of handovers, whoever starts.
pub proof fn rotation_reaches_every_engineer(start: int, target: int, count: int)
    requires
        0 <= start < count,
        0 <= target < count,
    ensures
        exists|k: nat| k < count && #[trigger] rotated(start, count, k) == target,
{
    let k: nat = if target >= start { (target - start) as nat } else { (target - start + count) as nat };
    lemma_rotated_is_shift(start, count, k);
    if target >= start {
        lemma_small_mod(target as nat, count as nat);
    } else {
        lemma_add_mod_noop(target, count, count);
        lemma_mod_self_0(count);
        lemma_small_mod(target as nat, count as nat);
    }
    assert(rotated(start, count, k) == target);
}

} // verus!
