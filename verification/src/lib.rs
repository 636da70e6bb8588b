//! An ownership ledger for the initial offering of tradable stock units.
//!
//! Three kinds of records are kept: one exchange-wide counter record, one
//! record per stock and one record per (stock, holder) pair. A holder record
//! lives at an address derived from the pair, so it is found again without an
//! index. Two operations change the records: registering a holder for a stock
//! and buying units of a stock during its initial offering.

pub mod address;
pub mod derive;
pub mod error;
pub mod state;
pub mod instructions;
pub mod laws;
