//! Counting over runs of steps: how a counter that moves on by one at
//! each counted step stands after a prefix of the run.

use vstd::prelude::*;

verus! {

/// How many of `flags` are set.
pub open spec fn count_set(flags: Seq<bool>) -> nat
    decreases flags.len(),
{
    if flags.len() == 0 {
        0
    } else {
        count_set(flags.drop_last()) + if flags.last() {
            1nat
        } else {
            0nat
        }
    }
}

/// The set flags among the first `i` are no more than among the first
/// `j`, and fewer when the flag at `i` is set and `i < j`.
pub proof fn lemma_count_grows(flags: Seq<bool>, i: int, j: int)
    requires
        0 <= i <= j <= flags.len(),
    ensures
        count_set(flags.take(i)) <= count_set(flags.take(j)),
        i < j && flags[i] ==> count_set(flags.take(i)) + 1 <= count_set(flags.take(j)),
    decreases j - i,
{
    if i < j {
        lemma_count_grows(flags, i, j - 1);
        assert(flags.take(j).drop_last() =~= flags.take(j - 1));
        assert(flags.take(j).last() == flags[j - 1]);
    }
}

/// A counter that starts at `start` and moves on by one at each set flag
/// stands, after the first `i` steps, at `start` plus the flags set among
/// them.
pub proof fn lemma_counter_prefix(counters: Seq<int>, flags: Seq<bool>, start: int, i: int)
    requires
        counters.len() == flags.len() + 1,
        counters[0] == start,
        forall|k: int|
            0 <= k < flags.len() ==> #[trigger] counters[k + 1] == counters[k] + if flags[k] {
                1int
            } else {
                0int
            },
        0 <= i < counters.len(),
    ensures
        counters[i] == start + count_set(flags.take(i)),
    decreases i,
{
    if i > 0 {
        lemma_counter_prefix(counters, flags, start, i - 1);
        assert(flags.take(i).drop_last() =~= flags.take(i - 1));
        assert(flags.take(i).last() == flags[i - 1]);
        let k = i - 1;
        assert(counters[k + 1] == counters[k] + if flags[k] {
            1int
        } else {
            0int
        });
    }
}

} // verus!
