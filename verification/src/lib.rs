//! An append-only ledger of asset-swap events.
//!
//! The ledger assigns each recorded swap a dense, zero-based sequence number,
//! answers "how many swaps were ever recorded", and returns the most recent
//! `n` records in newest-first order. Records are immutable once written.
//!
//! The ledger runs against a host environment that supplies persistent
//! key-value storage and an event bus; [`Env`] is the library's model of that
//! environment, holding the counter cell, the record slots and the published
//! events as plain values.

mod host;
mod records;
mod tracker;

pub use host::DataKey;
pub use host::Env;
pub use records::is_swap_event;
pub use records::swap_record;
pub use records::Address;
pub use records::SwapEvent;
pub use records::SwapRecord;
pub use tracker::clamp_requested;
pub use tracker::lemma_count_counts_records;
pub use tracker::lemma_recent_of_clamped;
pub use tracker::lemma_recent_of_empty;
pub use tracker::lemma_recent_of_newest_first;
pub use tracker::lemma_record_preserves_slots;
pub use tracker::recent_of;
pub use tracker::SwapTrackerContract;
