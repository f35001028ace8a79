//! The value types the ledger stores and publishes.

use vstd::prelude::*;

verus! {

/// An opaque, equality-comparable account identifier: the origin of a swap.
///
/// The ledger never inspects an address beyond comparing it for equality, so
/// it is carried as a plain numeric identifier.
#[derive(Clone, Copy, Debug, PartialEq, Eq, Structural)]
pub struct Address {
    pub id: u64,
}

impl Address {
    pub fn new(id: u64) -> (r: Address)
        ensures
            r.id == id,
    {
        Address { id }
    }
}

/// One immutable entry of the ledger, describing a single completed swap.
///
/// `amount` is denominated in the smallest unit of `from_asset`; neither its
/// sign nor the asset codes are validated here, by design. `timestamp` is
/// caller-supplied and not checked for plausibility.
#[derive(Debug, PartialEq, Eq)]
pub struct SwapRecord {
    pub user: Address,
    pub from_asset: String,
    pub to_asset: String,
    pub amount: i128,
    pub timestamp: u64,
}

impl Clone for SwapRecord {
    fn clone(&self) -> (r: Self)
        ensures
            r == *self,
    {
        SwapRecord {
            user: self.user,
            from_asset: self.from_asset.clone(),
            to_asset: self.to_asset.clone(),
            amount: self.amount,
            timestamp: self.timestamp,
        }
    }
}

/// The record that one recording call with these inputs writes.
pub open spec fn swap_record(
    user: Address,
    from_asset: String,
    to_asset: String,
    amount: i128,
    timestamp: u64,
) -> SwapRecord {
    SwapRecord { user, from_asset, to_asset, amount, timestamp }
}

/// One event published on the bus when a swap is recorded.
#[derive(Debug, PartialEq, Eq)]
pub struct SwapEvent {
    pub topic: String,
    pub user: Address,
    pub from_asset: String,
    pub to_asset: String,
    pub amount: i128,
    pub timestamp: u64,
}

/// Whether `e` is the event that recording a swap with these inputs
/// publishes: the fixed `"swap"` topic, then the inputs in argument order.
pub open spec fn is_swap_event(
    e: SwapEvent,
    user: Address,
    from_asset: String,
    to_asset: String,
    amount: i128,
    timestamp: u64,
) -> bool {
    &&& e.topic@ == "swap"@
    &&& e.user == user
    &&& e.from_asset == from_asset
    &&& e.to_asset == to_asset
    &&& e.amount == amount
    &&& e.timestamp == timestamp
}

} // verus!
