//! State-transition logic for a crowdfunding ledger.
//!
//! A campaign record is created with a funding target, any party may donate
//! to it, and only its admin may withdraw collected funds or close the
//! record. The record store keeps at most one record per `(admin, name)`
//! address, every record keeps enough balance to cover its storage reserve,
//! and every operation either applies completely or rejects with a stable
//! error kind and no state change.

pub mod campaign;
pub mod errors;
pub mod events;
pub mod laws;
pub mod ops;
pub mod store;
