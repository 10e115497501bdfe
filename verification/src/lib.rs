//! Arbitrated escrow vault: the rules of a single escrow deal between a
//! payer and a payee, mediated by a neutral arbiter.
//!
//! The vault is a state machine over the deal's record. Every call is
//! decided here, from the stored record, the call's arguments and the
//! addresses that authorized the call; the outcome is either a refusal,
//! which leaves the record untouched, or the new record together with the
//! effects (token transfer, storage lifetime extension, event) that the
//! hosting contract carries out.

pub mod address;
pub mod escrow;
pub mod effects;
pub mod vault;
pub mod laws;
