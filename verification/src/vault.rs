//! The vault: the stored escrow record and the calls that act on it.

use vstd::prelude::*;
use crate::address::Address;
use crate::effects::{instance_ttl, standard_ttl, Account, Effects, Event, Transfer};
use crate::escrow::{EscrowData, EscrowError, Status};

verus! {

/// Why a call was refused. A refused call changes nothing.
#[derive(Debug)]
pub enum CallError {
    /// The address that the call must be authorized by did not authorize it.
    MissingAuth(Address),
    /// The vault's rules refuse the call.
    Contract(EscrowError),
}

/// Whether `who` is among the addresses that authorized the call.
pub open spec fn signed(signers: Seq<Address>, who: Address) -> bool {
    exists|i: int| 0 <= i < signers.len() && #[trigger] signers[i]@ == who@
}

/// Whether payer, payee and arbiter are three different addresses.
pub open spec fn distinct_parties(payer: Address, payee: Address, arbiter: Address) -> bool {
    &&& payer@ != payee@
    &&& payer@ != arbiter@
    &&& payee@ != arbiter@
}

/// A call's outcome: the vault's record afterwards, and the call's result.
pub type Outcome = (Option<EscrowData>, Result<Effects, CallError>);

/// The outcome of `initialize` on the record `pre`.
pub open spec fn initialize_step(
    pre: Option<EscrowData>,
    signers: Seq<Address>,
    payer: Address,
    payee: Address,
    arbiter: Address,
    token: Address,
    amount: i128,
) -> Outcome {
    if !signed(signers, payer) {
        (pre, Err(CallError::MissingAuth(payer)))
    } else if pre is Some {
        (pre, Err(CallError::Contract(EscrowError::AlreadyInitialized)))
    } else if amount <= 0 {
        (pre, Err(CallError::Contract(EscrowError::InvalidAmount)))
    } else if !distinct_parties(payer, payee, arbiter) {
        (pre, Err(CallError::Contract(EscrowError::InvalidParties)))
    } else {
        let rec = EscrowData {
            payer,
            payee,
            arbiter,
            token,
            amount,
            funded: false,
            status: Status::Pending,
        };
        (
            Some(rec),
            Ok(
                Effects {
                    transfer: None,
                    stored: rec,
                    ttl: standard_ttl(),
                    event: Event::Initialized { payer, payee, arbiter, token, amount },
                },
            ),
        )
    }
}

/// The outcome of `deposit` on the record `pre`.
pub open spec fn deposit_step(pre: Option<EscrowData>, signers: Seq<Address>) -> Outcome {
    match pre {
        None => (pre, Err(CallError::Contract(EscrowError::NotInitialized))),
        Some(e) => {
            if !signed(signers, e.payer) {
                (pre, Err(CallError::MissingAuth(e.payer)))
            } else if e.funded {
                (pre, Err(CallError::Contract(EscrowError::AlreadyFunded)))
            } else if e.status != Status::Pending {
                (pre, Err(CallError::Contract(EscrowError::NotPending)))
            } else {
                let post = EscrowData { funded: true, ..e };
                (
                    Some(post),
                    Ok(
                        Effects {
                            transfer: Some(
                                Transfer {
                                    token: e.token,
                                    from: Account::Holder(e.payer),
                                    to: Account::Vault,
                                    amount: e.amount,
                                },
                            ),
                            stored: post,
                            ttl: standard_ttl(),
                            event: Event::Deposited { payer: e.payer, amount: e.amount },
                        },
                    ),
                )
            }
        },
    }
}

/// The outcome of `release` by `caller` on the record `pre`.
pub open spec fn release_step(
    pre: Option<EscrowData>,
    signers: Seq<Address>,
    caller: Address,
) -> Outcome {
    match pre {
        None => (pre, Err(CallError::Contract(EscrowError::NotInitialized))),
        Some(e) => {
            if !signed(signers, caller) {
                (pre, Err(CallError::MissingAuth(caller)))
            } else if caller@ != e.payer@ && caller@ != e.arbiter@ {
                (pre, Err(CallError::Contract(EscrowError::Unauthorized)))
            } else if e.status != Status::Pending {
                (pre, Err(CallError::Contract(EscrowError::NotPending)))
            } else if !e.funded {
                (pre, Err(CallError::Contract(EscrowError::NotFunded)))
            } else {
                let post = EscrowData { status: Status::Completed, ..e };
                (
                    Some(post),
                    Ok(
                        Effects {
                            transfer: Some(
                                Transfer {
                                    token: e.token,
                                    from: Account::Vault,
                                    to: Account::Holder(e.payee),
                                    amount: e.amount,
                                },
                            ),
                            stored: post,
                            ttl: standard_ttl(),
                            event: Event::Released { caller, payee: e.payee, amount: e.amount },
                        },
                    ),
                )
            }
        },
    }
}

/// The outcome of `refund` on the record `pre`.
pub open spec fn refund_step(pre: Option<EscrowData>, signers: Seq<Address>) -> Outcome {
    match pre {
        None => (pre, Err(CallError::Contract(EscrowError::NotInitialized))),
        Some(e) => {
            if !signed(signers, e.arbiter) {
                (pre, Err(CallError::MissingAuth(e.arbiter)))
            } else if e.status != Status::Pending {
                (pre, Err(CallError::Contract(EscrowError::NotPending)))
            } else if !e.funded {
                (pre, Err(CallError::Contract(EscrowError::NotFunded)))
            } else {
                let post = EscrowData { status: Status::Refunded, ..e };
                (
                    Some(post),
                    Ok(
                        Effects {
                            transfer: Some(
                                Transfer {
                                    token: e.token,
                                    from: Account::Vault,
                                    to: Account::Holder(e.payer),
                                    amount: e.amount,
                                },
                            ),
                            stored: post,
                            ttl: standard_ttl(),
                            event: Event::Refunded {
                                arbiter: e.arbiter,
                                payer: e.payer,
                                amount: e.amount,
                            },
                        },
                    ),
                )
            }
        },
    }
}

/// What a read of the record gives: the record, or `NotInitialized`.
pub open spec fn read_record(pre: Option<EscrowData>) -> Result<EscrowData, EscrowError> {
    match pre {
        None => Err(EscrowError::NotInitialized),
        Some(e) => Ok(e),
    }
}

/// A call on the vault, with its arguments.
#[derive(Debug)]
pub enum Call {
    Initialize { payer: Address, payee: Address, arbiter: Address, token: Address, amount: i128 },
    Deposit,
    Release { caller: Address },
    Refund,
}

/// The outcome of `call`, authorized by `signers`, on the record `pre`.
pub open spec fn step(pre: Option<EscrowData>, signers: Seq<Address>, call: Call) -> Outcome {
    match call {
        Call::Initialize { payer, payee, arbiter, token, amount } => initialize_step(
            pre,
            signers,
            payer,
            payee,
            arbiter,
            token,
            amount,
        ),
        Call::Deposit => deposit_step(pre, signers),
        Call::Release { caller } => release_step(pre, signers, caller),
        Call::Refund => refund_step(pre, signers),
    }
}

/// The address whose authorization `call` needs on the record `pre`:
/// the payer for `initialize` and `deposit`, the caller for `release`, the
/// arbiter for `refund`; `NotInitialized` when the call needs a record and
/// there is none.
pub open spec fn signer_of(pre: Option<EscrowData>, call: Call) -> Result<Address, EscrowError> {
    match call {
        Call::Initialize { payer, .. } => Ok(payer),
        Call::Deposit => match pre {
            None => Err(EscrowError::NotInitialized),
            Some(e) => Ok(e.payer),
        },
        Call::Release { caller } => match pre {
            None => Err(EscrowError::NotInitialized),
            Some(_) => Ok(caller),
        },
        Call::Refund => match pre {
            None => Err(EscrowError::NotInitialized),
            Some(e) => Ok(e.arbiter),
        },
    }
}

/// One instance of the vault: the escrow record in its storage, absent
/// until `initialize` has succeeded.
#[derive(Debug)]
pub struct EscrowVault {
    pub escrow: Option<EscrowData>,
}

impl View for EscrowVault {
    type V = Option<EscrowData>;

    open spec fn view(&self) -> Option<EscrowData> {
        self.escrow
    }
}

/// Whether `who` is among `signers`.
fn is_signed(signers: &Vec<Address>, who: &Address) -> (res: bool)
    ensures
        res == signed(signers@, *who),
{
    let mut i: usize = 0;
    while i < signers.len()
        invariant
            i <= signers.len(),
            forall|j: int| 0 <= j < i ==> signers@[j]@ != who@,
        decreases signers.len() - i,
    {
        if signers[i].same(who) {
            assert(signers@[i as int]@ == who@);
            return true;
        }
        i = i + 1;
    }
    false
}

impl EscrowVault {
    /// A vault holding `escrow` in its storage (`None` for a fresh one).
    pub fn new(escrow: Option<EscrowData>) -> (res: EscrowVault)
        ensures
            res@ == escrow,
    {
        EscrowVault { escrow }
    }

    /// Loads the escrow record, or `NotInitialized` if `initialize` has not
    /// succeeded yet.
    fn load(&self) -> (res: Result<&EscrowData, EscrowError>)
        ensures
            res matches Ok(e) ==> self@ == Some(*e),
            res matches Err(err) ==> self@ is None && err == EscrowError::NotInitialized,
    {
        match &self.escrow {
            Some(e) => Ok(e),
            None => Err(EscrowError::NotInitialized),
        }
    }

    /// The address that must authorize `call`, as `signer_of` says, so
    /// that the host can demand its authorization before the call is made.
    pub fn required_signer(&self, call: &Call) -> (res: Result<Address, EscrowError>)
        ensures
            res == signer_of(self@, *call),
    {
        match call {
            Call::Initialize { payer, .. } => Ok(payer.clone()),
            Call::Deposit => match self.load() {
                Ok(e) => Ok(e.payer.clone()),
                Err(err) => Err(err),
            },
            Call::Release { caller } => match self.load() {
                Ok(_) => Ok(caller.clone()),
                Err(err) => Err(err),
            },
            Call::Refund => match self.load() {
                Ok(e) => Ok(e.arbiter.clone()),
                Err(err) => Err(err),
            },
        }
    }

    /// Sets up a new escrow deal. May only be done once per vault, with the
    /// payer's authorization, since they are the party committing to fund
    /// the vault. Refuses a non-positive `amount` and parties that are not
    /// all distinct. Moves no funds: `deposit` does that afterwards.
    pub fn initialize(
        &mut self,
        signers: &Vec<Address>,
        payer: Address,
        payee: Address,
        arbiter: Address,
        token: Address,
        amount: i128,
    ) -> (res: Result<Effects, CallError>)
        ensures
            (final(self)@, res) == initialize_step(
                old(self)@,
                signers@,
                payer,
                payee,
                arbiter,
                token,
                amount,
            ),
    {
        if !is_signed(signers, &payer) {
            return Err(CallError::MissingAuth(payer));
        }
        if self.escrow.is_some() {
            return Err(CallError::Contract(EscrowError::AlreadyInitialized));
        }
        if amount <= 0 {
            return Err(CallError::Contract(EscrowError::InvalidAmount));
        }
        if payer.same(&payee) || payer.same(&arbiter) || payee.same(&arbiter) {
            return Err(CallError::Contract(EscrowError::InvalidParties));
        }
        let rec = EscrowData {
            payer: payer.clone(),
            payee: payee.clone(),
            arbiter: arbiter.clone(),
            token: token.clone(),
            amount,
            funded: false,
            status: Status::Pending,
        };
        let stored = rec.clone();
        self.escrow = Some(rec);
        Ok(
            Effects {
                transfer: None,
                stored,
                ttl: instance_ttl(),
                event: Event::Initialized { payer, payee, arbiter, token, amount },
            },
        )
    }

    /// Locks `amount` of the escrow's token into the vault by pulling it
    /// from the payer, with the payer's authorization. Allowed once, while
    /// the escrow is `Pending` and not yet funded; a deposit on an escrow
    /// that was already funded is refused with `AlreadyFunded`.
    pub fn deposit(&mut self, signers: &Vec<Address>) -> (res: Result<Effects, CallError>)
        ensures
            (final(self)@, res) == deposit_step(old(self)@, signers@),
    {
        let escrow = match self.load() {
            Ok(e) => e,
            Err(err) => return Err(CallError::Contract(err)),
        };
        if !is_signed(signers, &escrow.payer) {
            return Err(CallError::MissingAuth(escrow.payer.clone()));
        }
        if escrow.funded {
            return Err(CallError::Contract(EscrowError::AlreadyFunded));
        }
        if escrow.status != Status::Pending {
            return Err(CallError::Contract(EscrowError::NotPending));
        }
        let mut post = escrow.clone();
        post.funded = true;
        let transfer = Transfer {
            token: escrow.token.clone(),
            from: Account::Holder(escrow.payer.clone()),
            to: Account::Vault,
            amount: escrow.amount,
        };
        let event = Event::Deposited { payer: escrow.payer.clone(), amount: escrow.amount };
        let stored = post.clone();
        self.escrow = Some(post);
        Ok(Effects { transfer: Some(transfer), stored, ttl: instance_ttl(), event })
    }

    /// Releases the locked funds to the payee. `caller` must authorize the
    /// call and be either the payer or the arbiter; the escrow must be
    /// `Pending` and funded.
    pub fn release(&mut self, signers: &Vec<Address>, caller: Address) -> (res: Result<
        Effects,
        CallError,
    >)
        ensures
            (final(self)@, res) == release_step(old(self)@, signers@, caller),
    {
        let escrow = match self.load() {
            Ok(e) => e,
            Err(err) => return Err(CallError::Contract(err)),
        };
        if !is_signed(signers, &caller) {
            return Err(CallError::MissingAuth(caller));
        }
        if !caller.same(&escrow.payer) && !caller.same(&escrow.arbiter) {
            return Err(CallError::Contract(EscrowError::Unauthorized));
        }
        if escrow.status != Status::Pending {
            return Err(CallError::Contract(EscrowError::NotPending));
        }
        if !escrow.funded {
            return Err(CallError::Contract(EscrowError::NotFunded));
        }
        let mut post = escrow.clone();
        post.status = Status::Completed;
        let transfer = Transfer {
            token: escrow.token.clone(),
            from: Account::Vault,
            to: Account::Holder(escrow.payee.clone()),
            amount: escrow.amount,
        };
        let event = Event::Released {
            caller,
            payee: escrow.payee.clone(),
            amount: escrow.amount,
        };
        let stored = post.clone();
        self.escrow = Some(post);
        Ok(Effects { transfer: Some(transfer), stored, ttl: instance_ttl(), event })
    }

    /// Returns the locked funds to the payer, with the arbiter's
    /// authorization. The escrow must be `Pending` and funded.
    pub fn refund(&mut self, signers: &Vec<Address>) -> (res: Result<Effects, CallError>)
        ensures
            (final(self)@, res) == refund_step(old(self)@, signers@),
    {
        let escrow = match self.load() {
            Ok(e) => e,
            Err(err) => return Err(CallError::Contract(err)),
        };
        if !is_signed(signers, &escrow.arbiter) {
            return Err(CallError::MissingAuth(escrow.arbiter.clone()));
        }
        if escrow.status != Status::Pending {
            return Err(CallError::Contract(EscrowError::NotPending));
        }
        if !escrow.funded {
            return Err(CallError::Contract(EscrowError::NotFunded));
        }
        let mut post = escrow.clone();
        post.status = Status::Refunded;
        let transfer = Transfer {
            token: escrow.token.clone(),
            from: Account::Vault,
            to: Account::Holder(escrow.payer.clone()),
            amount: escrow.amount,
        };
        let event = Event::Refunded {
            arbiter: escrow.arbiter.clone(),
            payer: escrow.payer.clone(),
            amount: escrow.amount,
        };
        let stored = post.clone();
        self.escrow = Some(post);
        Ok(Effects { transfer: Some(transfer), stored, ttl: instance_ttl(), event })
    }

    /// The current lifecycle status of the escrow.
    pub fn get_status(&self) -> (res: Result<Status, EscrowError>)
        ensures
            res == (match read_record(self@) {
                Ok(e) => Ok(e.status),
                Err(err) => Err(err),
            }),
            self@ matches Some(e) ==> res == Ok::<Status, EscrowError>(e.status),
            self@ is None ==> res == Err::<Status, EscrowError>(EscrowError::NotInitialized),
    {
        match self.load() {
            Ok(e) => Ok(e.status),
            Err(err) => Err(err),
        }
    }

    /// The full escrow record (roles, token, amount, funded flag, status).
    pub fn get_escrow(&self) -> (res: Result<EscrowData, EscrowError>)
        ensures
            res == read_record(self@),
            self@ matches Some(e) ==> res == Ok::<EscrowData, EscrowError>(e),
            self@ is None ==> res == Err::<EscrowData, EscrowError>(EscrowError::NotInitialized),
    {
        match self.load() {
            Ok(e) => Ok(e.clone()),
            Err(err) => Err(err),
        }
    }
}

} // verus!
