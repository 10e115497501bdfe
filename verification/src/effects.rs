//! What a successful call asks the hosting contract to carry out.

use vstd::prelude::*;
use crate::address::Address;
use crate::escrow::EscrowData;

verus! {

/// Number of ledgers in one day, assuming ~5 second ledger close times.
/// Used to size storage lifetime extensions so the vault's state does not
/// expire and get archived while an escrow is still active.
pub const DAY_IN_LEDGERS: u32 = 17280;

/// How far into the future each extension pushes the vault's expiration.
pub const INSTANCE_BUMP_AMOUNT: u32 = 30 * DAY_IN_LEDGERS;

/// The remaining lifetime below which an extension actually bumps the
/// expiration ledger (avoids paying to extend on every single call).
pub const INSTANCE_LIFETIME_THRESHOLD: u32 = INSTANCE_BUMP_AMOUNT - DAY_IN_LEDGERS;

/// One end of a token transfer: the vault itself, or an outside account.
#[derive(Debug)]
pub enum Account {
    Vault,
    Holder(Address),
}

/// A transfer of `amount` of `token` from `from` to `to`.
#[derive(Debug)]
pub struct Transfer {
    pub token: Address,
    pub from: Account,
    pub to: Account,
    pub amount: i128,
}

/// Extension of the vault's storage lifetime: when fewer than `threshold`
/// ledgers remain, the expiration is pushed to `extend_to` ledgers ahead.
#[derive(Debug, Clone, Copy, PartialEq, Eq, Structural)]
pub struct TtlExtension {
    pub threshold: u32,
    pub extend_to: u32,
}

/// The event published by a successful call.
#[derive(Debug)]
pub enum Event {
    /// Topics `("init", payer, payee, arbiter)`, data `(token, amount)`.
    Initialized { payer: Address, payee: Address, arbiter: Address, token: Address, amount: i128 },
    /// Topics `("deposit", payer)`, data `amount`.
    Deposited { payer: Address, amount: i128 },
    /// Topics `("release", caller, payee)`, data `amount`.
    Released { caller: Address, payee: Address, amount: i128 },
    /// Topics `("refund", arbiter, payer)`, data `amount`.
    Refunded { arbiter: Address, payer: Address, amount: i128 },
}

/// The effects of a successful call, in the order they are carried out:
/// the token transfer, if any; storing `stored` as the vault's record;
/// extending the vault's storage lifetime; publishing `event`.
#[derive(Debug)]
pub struct Effects {
    pub transfer: Option<Transfer>,
    pub stored: EscrowData,
    pub ttl: TtlExtension,
    pub event: Event,
}

/// The lifetime extension that every successful call asks for.
pub open spec fn standard_ttl() -> TtlExtension {
    TtlExtension { threshold: INSTANCE_LIFETIME_THRESHOLD, extend_to: INSTANCE_BUMP_AMOUNT }
}

/// Builds the lifetime extension that every successful call asks for.
pub fn instance_ttl() -> (res: TtlExtension)
    ensures
        res == standard_ttl(),
{
    TtlExtension { threshold: INSTANCE_LIFETIME_THRESHOLD, extend_to: INSTANCE_BUMP_AMOUNT }
}

} // verus!
