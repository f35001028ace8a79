//! The ledger's three operations — record a swap, list the most recent
//! swaps newest first, and read the total count — with the laws they obey.

use vstd::prelude::*;

use crate::host::Env;
use crate::records::is_swap_event;
use crate::records::swap_record;
use crate::records::Address;
use crate::records::SwapRecord;

verus! {

/// The most recent `requested` entries of `records`, newest first: the
/// number of entries is clamped to what exists, and entry `j` is the record
/// written `j + 1` slots from the end.
pub open spec fn recent_of(records: Seq<SwapRecord>, requested: nat) -> Seq<SwapRecord> {
    let limit = if requested > records.len() {
        records.len()
    } else {
        requested
    };
    Seq::new(limit, |j: int| records[records.len() - 1 - j])
}

/// How many entries a query for `requested` records yields when `total`
/// records exist: the request, clamped to what exists.
pub fn clamp_requested(requested: u32, total: u64) -> (r: u64)
    ensures
        r == (if requested as u64 > total {
            total
        } else {
            requested as u64
        }),
        r <= requested,
        r <= total,
{
    if (requested as u64) > total {
        total
    } else {
        requested as u64
    }
}

/// The append-only swap ledger.
pub struct SwapTrackerContract;

impl SwapTrackerContract {
    /// Records a swap: writes it at the next free slot, advances the count
    /// by one, and publishes exactly one `"swap"` event carrying the inputs.
    ///
    /// The inputs are deliberately taken as given — no check that the assets
    /// differ, that the amount is positive, or that `user` is the caller.
    pub fn record_swap(
        env: &mut Env,
        user: Address,
        from_asset: String,
        to_asset: String,
        amount: i128,
        timestamp: u64,
    )
        requires
            old(env).wf(),
            old(env).count() < u64::MAX,
        ensures
            final(env).wf(),
            final(env).count() == old(env).count() + 1,
            final(env).records() == old(env).records().push(
                swap_record(user, from_asset, to_asset, amount, timestamp),
            ),
            final(env).event_log().len() == old(env).event_log().len() + 1,
            final(env).event_log().drop_last() == old(env).event_log(),
            is_swap_event(
                final(env).event_log().last(),
                user,
                from_asset,
                to_asset,
                amount,
                timestamp,
            ),
    {
        // Current swap count, defaulting to 0 when the cell was never written
        let count: u64 = env.storage_get_count().unwrap_or(0);

        let record = SwapRecord {
            user,
            from_asset: from_asset.clone(),
            to_asset: to_asset.clone(),
            amount,
            timestamp,
        };

        // Store the swap record, then advance the count
        env.storage_set_swap(count, record);
        env.storage_set_count(count + 1);

        // Notify real-time listeners
        env.publish_swap(user, from_asset, to_asset, amount, timestamp);
    }

    /// Returns the most recent `count` swap records, newest first: fewer
    /// only when fewer were ever recorded.
    pub fn get_recent_swaps(env: &Env, count: u32) -> (r: Vec<SwapRecord>)
        requires
            env.wf(),
        ensures
            r@ == recent_of(env.records(), count as nat),
            r@.len() <= count,
            r@.len() <= env.count(),
            count >= env.count() ==> r@.len() == env.count(),
    {
        let total: u64 = env.storage_get_count().unwrap_or(0);

        let mut swaps: Vec<SwapRecord> = Vec::new();
        let limit: u64 = clamp_requested(count, total);

        let ghost expected = recent_of(env.records(), count as nat);
        proof {
            assert(expected.len() == limit);
        }

        // Walk the slots from newest to oldest
        let mut i: u64 = 0;
        while i < limit
            invariant
                i <= limit,
                limit <= total,
                total as nat == env.records().len(),
                expected == recent_of(env.records(), count as nat),
                expected.len() == limit,
                swaps@ == expected.take(i as int),
            decreases limit - i,
        {
            let index = total - 1 - i;
            if let Some(record) = env.storage_get_swap(index) {
                swaps.push(record.clone());
            }
            proof {
                assert(expected.take(i + 1) =~= expected.take(i as int).push(expected[i as int]));
            }
            i = i + 1;
        }
        proof {
            assert(expected.take(limit as int) =~= expected);
        }
        swaps
    }

    /// Returns the total number of swaps recorded; zero on a fresh ledger.
    pub fn get_swap_count(env: &Env) -> (r: u64)
        ensures
            r == env.count(),
    {
        env.storage_get_count().unwrap_or(0)
    }
}

/// The count counts the records: under the storage invariant, the count read
/// back after any number of recordings equals the number of records written,
/// since a fresh ledger has both at zero and each recording advances both by
/// exactly one.
pub proof fn lemma_count_counts_records(env: Env)
    requires
        env.wf(),
    ensures
        env.count() as nat == env.records().len(),
{
}

/// Clamping: a query never yields more entries than requested nor more than
/// exist, and a request for at least everything yields exactly everything.
pub proof fn lemma_recent_of_clamped(records: Seq<SwapRecord>, requested: nat)
    ensures
        recent_of(records, requested).len() <= requested,
        recent_of(records, requested).len() <= records.len(),
        requested >= records.len() ==> recent_of(records, requested).len() == records.len(),
{
}

/// Newest first: entry `j` of a query's result is the record that stands
/// `j + 1` slots from the end of the ledger — reverse insertion order.
pub proof fn lemma_recent_of_newest_first(records: Seq<SwapRecord>, requested: nat, j: int)
    requires
        0 <= j < recent_of(records, requested).len(),
    ensures
        recent_of(records, requested)[j] == records[records.len() - 1 - j],
{
}

/// Empty ledger: with nothing recorded, every query yields the empty
/// sequence.
pub proof fn lemma_recent_of_empty(requested: nat)
    ensures
        recent_of(Seq::<SwapRecord>::empty(), requested) == Seq::<SwapRecord>::empty(),
{
    assert(recent_of(Seq::<SwapRecord>::empty(), requested) =~= Seq::<SwapRecord>::empty());
}

/// Immutability: recording only appends — every slot populated before a
/// recording holds the identical record afterwards.
pub proof fn lemma_record_preserves_slots(records: Seq<SwapRecord>, added: SwapRecord, i: int)
    requires
        0 <= i < records.len(),
    ensures
        records.push(added)[i] == records[i],
{
}

} // verus!
