//! The ledger's model of its host environment: a persistent key-value store
//! (one counter cell plus a family of record slots) and an event bus.

use vstd::prelude::*;

use crate::records::is_swap_event;
use crate::records::Address;
use crate::records::SwapEvent;
use crate::records::SwapRecord;

verus! {

/// The persistent-storage key space: the singleton counter cell, and one
/// slot per recorded swap, keyed by its zero-based sequence number.
#[derive(Clone, Copy, Debug, PartialEq, Eq, Structural)]
pub enum DataKey {
    SwapCount,
    Swap(u64),
}

/// The host environment as the ledger consumes it: persistent storage
/// holding the counter cell and the record slots, and the log of events
/// published so far.
///
/// A fresh environment has an absent counter cell (read as zero), no record
/// slots and no events; the ledger's recording operation is the only way a
/// slot is ever written, and it never overwrites or removes one.
pub struct Env {
    swap_count: Option<u64>,
    swaps: Vec<SwapRecord>,
    events: Vec<SwapEvent>,
}

impl Env {
    /// The raw counter cell; `None` when it was never written.
    pub closed spec fn stored_count(&self) -> Option<u64> {
        self.swap_count
    }

    /// The ledger count: the counter cell, with an absent cell read as zero.
    pub open spec fn count(&self) -> u64 {
        match self.stored_count() {
            Some(c) => c,
            None => 0,
        }
    }

    /// Every record ever written, in insertion order: slot `i` of the store
    /// holds `self.records()[i]`.
    pub closed spec fn records(&self) -> Seq<SwapRecord> {
        self.swaps@
    }

    /// Every event ever published, in publication order.
    pub closed spec fn event_log(&self) -> Seq<SwapEvent> {
        self.events@
    }

    /// Whether `key` holds a value in persistent storage.
    pub open spec fn spec_has(&self, key: DataKey) -> bool {
        match key {
            DataKey::SwapCount => self.stored_count() is Some,
            DataKey::Swap(i) => i < self.records().len(),
        }
    }

    /// The storage invariant: the counter is the single source of truth for
    /// which slots are populated — exactly the slots `0 .. count - 1` hold a
    /// record.
    pub open spec fn wf(&self) -> bool {
        self.count() as nat == self.records().len()
    }

    /// Whether `key` currently holds a value in persistent storage.
    pub fn storage_has(&self, key: &DataKey) -> (r: bool)
        ensures
            r == self.spec_has(*key),
    {
        match key {
            DataKey::SwapCount => self.swap_count.is_some(),
            DataKey::Swap(i) => *i < self.swaps.len() as u64,
        }
    }

    /// The events published so far, oldest first.
    pub fn events(&self) -> (r: &Vec<SwapEvent>)
        ensures
            r@ == self.event_log(),
    {
        &self.events
    }

    /// Read the counter cell; `None` when it was never written.
    pub(crate) fn storage_get_count(&self) -> (r: Option<u64>)
        ensures
            r == self.stored_count(),
    {
        self.swap_count
    }

    /// Write the counter cell.
    pub(crate) fn storage_set_count(&mut self, n: u64)
        ensures
            final(self).stored_count() == Some(n),
            final(self).records() == old(self).records(),
            final(self).event_log() == old(self).event_log(),
    {
        self.swap_count = Some(n);
    }

    /// Read record slot `index`; `None` when no record was written there.
    pub(crate) fn storage_get_swap(&self, index: u64) -> (r: Option<&SwapRecord>)
        ensures
            match r {
                Some(rec) => index < self.records().len() && *rec == self.records()[index as int],
                None => index >= self.records().len(),
            },
    {
        if index < self.swaps.len() as u64 {
            Some(&self.swaps[index as usize])
        } else {
            None
        }
    }

    /// Write record slot `index`. The ledger writes each slot exactly once,
    /// at the end of the populated range.
    pub(crate) fn storage_set_swap(&mut self, index: u64, record: SwapRecord)
        requires
            index as nat == old(self).records().len(),
        ensures
            final(self).records() == old(self).records().push(record),
            final(self).stored_count() == old(self).stored_count(),
            final(self).event_log() == old(self).event_log(),
    {
        let len: u64 = self.swaps.len() as u64;
        if index == len {
            self.swaps.push(record);
        }
    }

    /// Publish one event carrying the swap's fields under the `"swap"` topic.
    pub(crate) fn publish_swap(
        &mut self,
        user: Address,
        from_asset: String,
        to_asset: String,
        amount: i128,
        timestamp: u64,
    )
        ensures
            final(self).event_log().len() == old(self).event_log().len() + 1,
            final(self).event_log().drop_last() == old(self).event_log(),
            is_swap_event(final(self).event_log().last(), user, from_asset, to_asset, amount, timestamp),
            final(self).stored_count() == old(self).stored_count(),
            final(self).records() == old(self).records(),
    {
        let event = SwapEvent {
            topic: "swap".to_owned(),
            user,
            from_asset,
            to_asset,
            amount,
            timestamp,
        };
        self.events.push(event);
        proof {
            assert(self.event_log().drop_last() =~= old(self).event_log());
        }
    }
}

impl Default for Env {
    /// A fresh environment: an absent counter cell, no records, no events.
    fn default() -> (r: Env)
        ensures
            r.wf(),
            r.count() == 0,
            r.stored_count() is None,
            r.records() == Seq::<SwapRecord>::empty(),
            r.event_log() == Seq::<SwapEvent>::empty(),
    {
        Env { swap_count: None, swaps: Vec::new(), events: Vec::new() }
    }
}

} // verus!
