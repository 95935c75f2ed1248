//! Settlement ledger for synthetic stock orders, with the helpers of the
//! price-quoting gateway that surround it.

pub mod error;
pub mod events;
pub mod gateway;
pub mod identity;
pub mod instructions;
pub mod invariants;
pub mod laws;
pub mod ledger;
pub mod model;
pub mod records;
pub mod table;
