//! The engine-wide laws that relate several operations, stated over the
//! same spec functions the operations' own contracts use and proved here
//! once and for all.

use vstd::prelude::*;

use vstd::math::min;

use crate::storage::{appended_history, HISTORY_LIMIT};
use crate::types::Settlement;

verus! {

/// The total of a sequence of settlement amounts.
pub open spec fn sum_amounts(amounts: Seq<int>) -> int
    decreases amounts.len(),
{
    if amounts.len() == 0 {
        0
    } else {
        sum_amounts(amounts.drop_last()) + amounts.last()
    }
}

/// No double-spend: over any run of successful settlements on one channel,
/// the sum of the amounts paid out never exceeds the deposit the channel
/// was opened with. `open_escrow` starts the escrow at the deposit,
/// `settle_payment` only succeeds when the amount fits in the remaining
/// escrow (its sufficiency gate, `amounts[i] <= deposit - paid so far`) and
/// decrements the escrow by exactly that amount, so the payouts telescope
/// against the deposit.
pub proof fn lemma_no_double_spend(deposit: int, amounts: Seq<int>)
    requires
        deposit >= 0,
        forall|i: int| 0 <= i < amounts.len()
            ==> #[trigger] amounts[i] <= deposit - sum_amounts(amounts.take(i)),
    ensures
        sum_amounts(amounts) <= deposit,
    decreases amounts.len(),
{
    if amounts.len() > 0 {
        let prefix = amounts.drop_last();
        assert forall|i: int| 0 <= i < prefix.len()
            implies #[trigger] prefix[i] <= deposit - sum_amounts(prefix.take(i)) by {
            assert(prefix.take(i) =~= amounts.take(i));
            assert(amounts[i] <= deposit - sum_amounts(amounts.take(i)));
        }
        lemma_no_double_spend(deposit, prefix);
        assert(amounts.take(amounts.len() - 1) =~= prefix);
        assert(amounts.last() <= deposit - sum_amounts(prefix));
    }
}

/// A strictly increasing counter sequence grows across any distance.
proof fn lemma_counters_strictly_increase(counters: Seq<u64>, i: int, j: int)
    requires
        0 <= i < j < counters.len(),
        forall|k: int| 0 <= k < counters.len() - 1 ==> #[trigger] counters[k + 1] > counters[k],
    ensures
        counters[j] > counters[i],
    decreases j - i,
{
    if j > i + 1 {
        lemma_counters_strictly_increase(counters, i, j - 1);
        assert(counters[j - 1 + 1] > counters[j - 1]);
    } else {
        assert(counters[i + 1] > counters[i]);
    }
}

/// Nonce monotonicity: a successful settlement accepts exactly the client's
/// pre-call counter as its nonce and leaves the counter one higher
/// (`settle_payment`'s contract), and no other operation moves the counter.
/// Hence over any run of successful settlements for one client, where
/// `counters[k]` is the counter before the k-th success and `nonces[k]` the
/// nonce it redeemed, no nonce value is ever accepted twice.
pub proof fn lemma_no_nonce_reuse(counters: Seq<u64>, nonces: Seq<u64>)
    requires
        nonces.len() == counters.len(),
        forall|k: int| 0 <= k < nonces.len() ==> #[trigger] nonces[k] == counters[k],
        forall|k: int| 0 <= k < counters.len() - 1 ==> #[trigger] counters[k + 1] > counters[k],
    ensures
        forall|i: int, j: int| 0 <= i < j < nonces.len() ==> nonces[i] != nonces[j],
{
    assert forall|i: int, j: int| 0 <= i < j < nonces.len() implies nonces[i] != nonces[j] by {
        lemma_counters_strictly_increase(counters, i, j);
    }
}

/// One settlement takes a history of length `l` to `l + 1` while under the
/// bound and evicts the oldest record otherwise, exactly as
/// `add_settlement`'s contract states through `appended_history`.
pub proof fn lemma_appended_history_len(history: Seq<Settlement>, s: Settlement)
    ensures
        appended_history(history, s).len() == if history.len() < HISTORY_LIMIT {
            history.len() as int + 1
        } else {
            history.len() as int
        },
{
}

/// The history that a run of settlements leaves behind: starting empty,
/// each settlement is folded in through `appended_history`, exactly as
/// `add_settlement`'s contract extends the stored history on every
/// successful `settle_payment`.
pub open spec fn replay_history(all: Seq<Settlement>) -> Seq<Settlement>
    decreases all.len(),
{
    if all.len() == 0 {
        Seq::empty()
    } else {
        appended_history(replay_history(all.drop_last()), all.last())
    }
}

/// History contents: after any run of successful settlements the stored
/// history holds exactly the most recent `min(count, 100)` of them, in
/// chronological order: `appended_history` appends at the tail and evicts
/// only at the head.
pub proof fn lemma_history_contents(all: Seq<Settlement>)
    ensures
        replay_history(all) == if all.len() <= HISTORY_LIMIT {
            all
        } else {
            all.skip(all.len() - HISTORY_LIMIT as int)
        },
    decreases all.len(),
{
    if all.len() > 0 {
        let prefix = all.drop_last();
        lemma_history_contents(prefix);
        let stored = replay_history(prefix);
        if prefix.len() <= HISTORY_LIMIT {
            assert(prefix.push(all.last()) =~= all);
            if all.len() > HISTORY_LIMIT {
                assert(all.drop_first() =~= all.skip(all.len() - HISTORY_LIMIT as int));
            }
        } else {
            assert(stored.push(all.last())
                =~= all.skip(prefix.len() - HISTORY_LIMIT as int));
            assert(all.skip(prefix.len() - HISTORY_LIMIT as int).drop_first()
                =~= all.skip(all.len() - HISTORY_LIMIT as int));
        }
    }
}

/// History bound: starting from an empty history, after `k` successful
/// settlements the stored history holds `min(k, 100)` records, each
/// settlement moving the length by the step `lemma_appended_history_len`
/// gives.
pub proof fn lemma_history_bound(lens: Seq<int>, k: int)
    requires
        lens.len() > 0,
        lens[0] == 0,
        0 <= k < lens.len(),
        forall|j: int| 0 <= j < lens.len() - 1
            ==> #[trigger] lens[j + 1] == min(lens[j] + 1, HISTORY_LIMIT as int),
    ensures
        lens[k] == min(k, HISTORY_LIMIT as int),
    decreases k,
{
    if k > 0 {
        lemma_history_bound(lens, k - 1);
        assert(lens[k - 1 + 1] == min(lens[k - 1] + 1, HISTORY_LIMIT as int));
    }
}

} // verus!
