//! The escrow record, its lifecycle status and the errors of the vault.

use vstd::prelude::*;
use crate::address::Address;

verus! {

/// Lifecycle status of the escrow.
#[derive(Clone, Copy, Debug, PartialEq, Eq, Structural)]
pub enum Status {
    /// Escrow has been initialized (and may or may not be funded yet); no
    /// final resolution has occurred.
    Pending,
    /// Funds have been released to the payee. Terminal state.
    Completed,
    /// Funds have been returned to the payer. Terminal state.
    Refunded,
}

/// Typed error codes for every failure path of the vault.
#[derive(Clone, Copy, Debug, PartialEq, Eq, PartialOrd, Ord, Structural)]
pub enum EscrowError {
    /// `initialize` was called on a vault that already has an escrow set up.
    AlreadyInitialized,
    /// A state-mutating or read function was called before `initialize`.
    NotInitialized,
    /// `amount` supplied to `initialize` was zero or negative.
    InvalidAmount,
    /// `payer`, `payee`, and `arbiter` were not all distinct addresses.
    InvalidParties,
    /// `deposit` was called on an escrow that has already been funded.
    AlreadyFunded,
    /// `release` or `refund` was called before the escrow was funded.
    NotFunded,
    /// `release` or `refund` was called on an escrow that is no longer
    /// `Pending` (i.e. already `Completed` or `Refunded`).
    NotPending,
    /// `release` was called by an address that is neither the payer nor
    /// the arbiter.
    Unauthorized,
}

/// The contract error code of each error, as published on chain.
pub open spec fn error_code(e: EscrowError) -> u32 {
    match e {
        EscrowError::AlreadyInitialized => 1,
        EscrowError::NotInitialized => 2,
        EscrowError::InvalidAmount => 3,
        EscrowError::InvalidParties => 4,
        EscrowError::AlreadyFunded => 5,
        EscrowError::NotFunded => 6,
        EscrowError::NotPending => 7,
        EscrowError::Unauthorized => 8,
    }
}

impl EscrowError {
    /// The contract error code of this error.
    pub fn code(&self) -> (res: u32)
        ensures
            res == error_code(*self),
    {
        match self {
            EscrowError::AlreadyInitialized => 1,
            EscrowError::NotInitialized => 2,
            EscrowError::InvalidAmount => 3,
            EscrowError::InvalidParties => 4,
            EscrowError::AlreadyFunded => 5,
            EscrowError::NotFunded => 6,
            EscrowError::NotPending => 7,
            EscrowError::Unauthorized => 8,
        }
    }
}

/// Full record of this escrow deal.
#[derive(Debug)]
pub struct EscrowData {
    pub payer: Address,
    pub payee: Address,
    pub arbiter: Address,
    pub token: Address,
    pub amount: i128,
    /// True once `deposit` has successfully pulled `amount` of `token` from
    /// `payer` into the vault.
    pub funded: bool,
    pub status: Status,
}

impl Clone for EscrowData {
    fn clone(&self) -> (res: Self)
        ensures
            res == *self,
    {
        EscrowData {
            payer: self.payer.clone(),
            payee: self.payee.clone(),
            arbiter: self.arbiter.clone(),
            token: self.token.clone(),
            amount: self.amount,
            funded: self.funded,
            status: self.status,
        }
    }
}

} // verus!
