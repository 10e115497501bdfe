//! Properties of the vault that hold across its calls.

use vstd::prelude::*;
use crate::address::Address;
use crate::effects::{standard_ttl, Account, Effects, Event, Transfer};
use crate::escrow::{EscrowData, EscrowError, Status};
use crate::vault::{
    distinct_parties, initialize_step, read_record, signed, signer_of, step, Call, CallError,
};

verus! {

/// The invariant of the stored record: a positive amount, three distinct
/// parties, and a resolved escrow was funded before it was resolved.
pub open spec fn well_formed(s: Option<EscrowData>) -> bool {
    match s {
        None => true,
        Some(e) => {
            &&& e.amount > 0
            &&& distinct_parties(e.payer, e.payee, e.arbiter)
            &&& e.status != Status::Pending ==> e.funded
        },
    }
}

/// The amount of the escrow's token that the vault holds for the deal.
pub open spec fn held(s: Option<EscrowData>) -> int {
    match s {
        Some(e) => if e.funded && e.status == Status::Pending {
            e.amount as int
        } else {
            0
        },
        None => 0,
    }
}

/// What a transfer moves into the vault (negative when it moves out).
pub open spec fn transfer_inflow(t: Transfer) -> int {
    (if t.to is Vault { t.amount as int } else { 0 }) - (if t.from is Vault {
        t.amount as int
    } else {
        0
    })
}

/// What a call's result moves into the vault.
pub open spec fn inflow(res: Result<Effects, CallError>) -> int {
    match res {
        Ok(fx) => match fx.transfer {
            Some(t) => transfer_inflow(t),
            None => 0,
        },
        Err(_) => 0,
    }
}

/// Whether a call's result pays funds out of the vault.
pub open spec fn pays_out(res: Result<Effects, CallError>) -> bool {
    res matches Ok(fx) && fx.transfer matches Some(t) && t.from is Vault
}

/// Whether the escrow can still be paid out: not yet set up, or pending.
pub open spec fn open_deal(s: Option<EscrowData>) -> bool {
    match s {
        None => true,
        Some(e) => e.status == Status::Pending,
    }
}

/// The record after a sequence of calls, each with the addresses that
/// authorized it.
pub open spec fn run(pre: Option<EscrowData>, calls: Seq<(Seq<Address>, Call)>) -> Option<
    EscrowData,
>
    decreases calls.len(),
{
    if calls.len() == 0 {
        pre
    } else {
        run(step(pre, calls[0].0, calls[0].1).0, calls.drop_first())
    }
}

/// The total that a sequence of calls moves into the vault.
pub open spec fn run_inflow(pre: Option<EscrowData>, calls: Seq<(Seq<Address>, Call)>) -> int
    decreases calls.len(),
{
    if calls.len() == 0 {
        0
    } else {
        let o = step(pre, calls[0].0, calls[0].1);
        inflow(o.1) + run_inflow(o.0, calls.drop_first())
    }
}

/// How many calls of a sequence pay funds out of the vault.
pub open spec fn run_payouts(pre: Option<EscrowData>, calls: Seq<(Seq<Address>, Call)>) -> nat
    decreases calls.len(),
{
    if calls.len() == 0 {
        0
    } else {
        let o = step(pre, calls[0].0, calls[0].1);
        (if pays_out(o.1) { 1nat } else { 0nat }) + run_payouts(o.0, calls.drop_first())
    }
}

/// Every call keeps the record well formed.
pub proof fn lemma_step_preserves_well_formed(
    pre: Option<EscrowData>,
    signers: Seq<Address>,
    call: Call,
)
    requires
        well_formed(pre),
    ensures
        well_formed(step(pre, signers, call).0),
{
}

/// A refused call changes nothing: the record stays as it was, and there
/// is no effect to carry out.
pub proof fn lemma_refusal_changes_nothing(
    pre: Option<EscrowData>,
    signers: Seq<Address>,
    call: Call,
)
    ensures
        step(pre, signers, call).1 is Err ==> step(pre, signers, call).0 == pre,
{
}

/// Once completed or refunded, the escrow is final: every call is refused
/// and the record stays as it is. In particular funds are never released
/// or refunded twice.
pub proof fn lemma_resolved_escrow_is_final(
    e: EscrowData,
    signers: Seq<Address>,
    call: Call,
)
    requires
        e.status != Status::Pending,
    ensures
        step(Some(e), signers, call).1 is Err,
        step(Some(e), signers, call).0 == Some(e),
{
}

/// An escrow is set up at most once: `initialize` on a vault that holds a
/// record is refused, with `AlreadyInitialized` once the payer authorized.
pub proof fn lemma_initialize_only_once(
    e: EscrowData,
    signers: Seq<Address>,
    payer: Address,
    payee: Address,
    arbiter: Address,
    token: Address,
    amount: i128,
)
    ensures
        initialize_step(Some(e), signers, payer, payee, arbiter, token, amount).0 == Some(e),
        signed(signers, payer) ==> initialize_step(
            Some(e),
            signers,
            payer,
            payee,
            arbiter,
            token,
            amount,
        ).1 == Err::<Effects, CallError>(CallError::Contract(EscrowError::AlreadyInitialized)),
        !signed(signers, payer) ==> initialize_step(
            Some(e),
            signers,
            payer,
            payee,
            arbiter,
            token,
            amount,
        ).1 == Err::<Effects, CallError>(CallError::MissingAuth(payer)),
{
}

/// A deposit on an escrow that was already funded, pending or resolved,
/// is refused with `AlreadyFunded` once the payer authorized it; so on a
/// well-formed record `deposit` is never refused with `NotPending`.
pub proof fn lemma_deposit_after_funding(e: EscrowData, signers: Seq<Address>)
    ensures
        e.funded && signed(signers, e.payer) ==> step(Some(e), signers, Call::Deposit).1 == Err::<
            Effects,
            CallError,
        >(CallError::Contract(EscrowError::AlreadyFunded)),
        well_formed(Some(e)) ==> step(Some(e), signers, Call::Deposit).1 != Err::<
            Effects,
            CallError,
        >(CallError::Contract(EscrowError::NotPending)),
{
}

/// On a vault that holds no record, every call other than `initialize` is
/// refused with `NotInitialized` and changes nothing.
pub proof fn lemma_uninitialized_refuses(signers: Seq<Address>, call: Call)
    ensures
        !(call is Initialize) ==> step(None, signers, call).1 == Err::<Effects, CallError>(
            CallError::Contract(EscrowError::NotInitialized),
        ),
        !(call is Initialize) ==> step(None, signers, call).0 is None,
{
}

/// An accepted call was authorized by the party that the rules name:
/// `initialize` and `deposit` by the payer, `release` by its caller, who is
/// the payer or the arbiter, and `refund` by the arbiter.
pub proof fn lemma_accepted_calls_are_authorized(
    pre: Option<EscrowData>,
    signers: Seq<Address>,
    call: Call,
)
    requires
        step(pre, signers, call).1 is Ok,
    ensures
        call matches Call::Initialize { payer, .. } ==> signed(signers, payer),
        call is Deposit ==> pre is Some && signed(signers, pre.unwrap().payer),
        call matches Call::Release { caller } ==> pre is Some && signed(signers, caller) && (
        caller@ == pre.unwrap().payer@ || caller@ == pre.unwrap().arbiter@),
        call is Refund ==> pre is Some && signed(signers, pre.unwrap().arbiter),
{
}

/// Each call is gated by exactly the signature that `signer_of` names: a
/// call that needs a record is refused with `NotInitialized` when there is
/// none; otherwise a call without that signature is refused for it, and an
/// accepted call had it.
pub proof fn lemma_signature_gate(pre: Option<EscrowData>, signers: Seq<Address>, call: Call)
    ensures
        signer_of(pre, call) matches Err(err) ==> step(pre, signers, call).1 == Err::<
            Effects,
            CallError,
        >(CallError::Contract(err)),
        (signer_of(pre, call) matches Ok(who) && !signed(signers, who)) ==> step(
            pre,
            signers,
            call,
        ).1 == Err::<Effects, CallError>(CallError::MissingAuth(signer_of(pre, call).unwrap())),
        step(pre, signers, call).1 is Ok ==> (signer_of(pre, call) matches Ok(who) && signed(
            signers,
            who,
        )),
{
}

/// The terms of the deal never change once set up: an accepted call keeps
/// the parties, the token and the amount, never moves the status back to
/// `Pending`, and never unfunds the escrow.
pub proof fn lemma_terms_are_fixed(e: EscrowData, signers: Seq<Address>, call: Call)
    ensures
        step(Some(e), signers, call).0 matches Some(post) && {
            &&& post.payer == e.payer
            &&& post.payee == e.payee
            &&& post.arbiter == e.arbiter
            &&& post.token == e.token
            &&& post.amount == e.amount
            &&& e.funded ==> post.funded
            &&& e.status != Status::Pending ==> post.status == e.status
        },
{
}

/// What an accepted call moves: only the escrow's token, only its amount,
/// from the payer into the vault on `deposit`, and out of the vault to the
/// payee on `release` or to the payer on `refund`.
pub proof fn lemma_transfers_follow_the_terms(e: EscrowData, signers: Seq<Address>, call: Call)
    ensures
        step(Some(e), signers, call).1 matches Ok(fx) ==> match fx.transfer {
            None => false,
            Some(t) => {
                &&& t.token == e.token
                &&& t.amount == e.amount
                &&& call is Deposit ==> t.from == Account::Holder(e.payer) && t.to is Vault
                &&& call is Release ==> t.from is Vault && t.to == Account::Holder(e.payee)
                &&& call is Refund ==> t.from is Vault && t.to == Account::Holder(e.payer)
            },
        },
{
}

/// The vault's holding changes by exactly what a call moves in or out.
pub proof fn lemma_step_conserves_funds(pre: Option<EscrowData>, signers: Seq<Address>, call: Call)
    ensures
        held(step(pre, signers, call).0) == held(pre) + inflow(step(pre, signers, call).1),
{
}

/// Over any sequence of calls, the vault's holding changes by exactly what
/// the calls moved in or out, and the record stays well formed.
pub proof fn lemma_run_conserves_funds(pre: Option<EscrowData>, calls: Seq<(Seq<Address>, Call)>)
    requires
        well_formed(pre),
    ensures
        held(run(pre, calls)) == held(pre) + run_inflow(pre, calls),
        well_formed(run(pre, calls)),
    decreases calls.len(),
{
    if calls.len() > 0 {
        let o = step(pre, calls[0].0, calls[0].1);
        lemma_step_conserves_funds(pre, calls[0].0, calls[0].1);
        lemma_step_preserves_well_formed(pre, calls[0].0, calls[0].1);
        lemma_run_conserves_funds(o.0, calls.drop_first());
    }
}

/// Starting from a fresh vault, no sequence of calls ever pays out more
/// than was deposited, and at most one call pays anything out.
pub proof fn lemma_no_double_spend(calls: Seq<(Seq<Address>, Call)>)
    ensures
        run_inflow(None, calls) >= 0,
        run_payouts(None, calls) <= 1,
{
    lemma_run_conserves_funds(None, calls);
    lemma_run_payouts_bounded(None, calls);
}

/// A deal that is still open pays out at most once more; a resolved one
/// never again.
pub proof fn lemma_run_payouts_bounded(pre: Option<EscrowData>, calls: Seq<(Seq<Address>, Call)>)
    ensures
        run_payouts(pre, calls) <= (if open_deal(pre) { 1nat } else { 0nat }),
    decreases calls.len(),
{
    if calls.len() > 0 {
        let o = step(pre, calls[0].0, calls[0].1);
        lemma_run_payouts_bounded(o.0, calls.drop_first());
    }
}

/// After a successful `initialize`, reading the vault gives back the terms
/// it was given, unfunded and `Pending`.
pub proof fn lemma_read_after_initialize(
    pre: Option<EscrowData>,
    signers: Seq<Address>,
    payer: Address,
    payee: Address,
    arbiter: Address,
    token: Address,
    amount: i128,
)
    requires
        initialize_step(pre, signers, payer, payee, arbiter, token, amount).1 is Ok,
    ensures
        read_record(initialize_step(pre, signers, payer, payee, arbiter, token, amount).0) == Ok::<
            EscrowData,
            EscrowError,
        >(
            EscrowData {
                payer,
                payee,
                arbiter,
                token,
                amount,
                funded: false,
                status: Status::Pending,
            },
        ),
{
}

/// An accepted call stores, and announces, the record it leaves behind.
pub proof fn lemma_effects_store_the_new_record(
    pre: Option<EscrowData>,
    signers: Seq<Address>,
    call: Call,
)
    ensures
        step(pre, signers, call).1 matches Ok(fx) ==> step(pre, signers, call).0 == Some(
            fx.stored,
        ),
{
}

/// Initialize liveness: on an empty vault, `initialize` authorized by the
/// payer, with a positive amount (any positive `i128`) and three distinct
/// parties, is accepted; it stores exactly the given terms, unfunded and
/// `Pending`, moves no funds, and announces the terms.
pub proof fn lemma_initialize_accepts(
    signers: Seq<Address>,
    payer: Address,
    payee: Address,
    arbiter: Address,
    token: Address,
    amount: i128,
)
    requires
        signed(signers, payer),
        amount > 0,
        payer@ != payee@,
        payer@ != arbiter@,
        payee@ != arbiter@,
    ensures
        ({
            let o = step(
                None,
                signers,
                Call::Initialize { payer, payee, arbiter, token, amount },
            );
            let rec = EscrowData {
                payer,
                payee,
                arbiter,
                token,
                amount,
                funded: false,
                status: Status::Pending,
            };
            &&& o.0 == Some(rec)
            &&& o.1 matches Ok(fx) && {
                &&& fx.transfer is None
                &&& fx.stored == rec
                &&& fx.ttl == standard_ttl()
                &&& fx.event == Event::Initialized { payer, payee, arbiter, token, amount }
            }
        }),
{
}

/// Deposit liveness: on an unfunded, `Pending` escrow whose payer
/// authorized the call, `deposit` is accepted whatever the (positive)
/// amount; it moves exactly the amount of the escrow's token from the payer
/// into the vault and marks the escrow funded, changing nothing else.
pub proof fn lemma_deposit_accepts(e: EscrowData, signers: Seq<Address>)
    requires
        !e.funded,
        e.status == Status::Pending,
        signed(signers, e.payer),
    ensures
        ({
            let o = step(Some(e), signers, Call::Deposit);
            let post = EscrowData { funded: true, ..e };
            &&& o.0 == Some(post)
            &&& o.1 matches Ok(fx) && {
                &&& fx.transfer == Some(
                    Transfer {
                        token: e.token,
                        from: Account::Holder(e.payer),
                        to: Account::Vault,
                        amount: e.amount,
                    },
                )
                &&& fx.stored == post
                &&& fx.ttl == standard_ttl()
                &&& fx.event == Event::Deposited { payer: e.payer, amount: e.amount }
            }
        }),
{
}

/// Release liveness: on a funded, `Pending` escrow, a release whose caller
/// is the payer or the arbiter and authorized the call is accepted, with no
/// other signature needed and whatever the amount; it moves the whole
/// amount from the vault to the payee and completes the escrow, changing
/// nothing else.
pub proof fn lemma_release_accepts(e: EscrowData, signers: Seq<Address>, caller: Address)
    requires
        e.funded,
        e.status == Status::Pending,
        caller@ == e.payer@ || caller@ == e.arbiter@,
        signed(signers, caller),
    ensures
        ({
            let o = step(Some(e), signers, Call::Release { caller });
            let post = EscrowData { status: Status::Completed, ..e };
            &&& o.0 == Some(post)
            &&& o.1 matches Ok(fx) && {
                &&& fx.transfer == Some(
                    Transfer {
                        token: e.token,
                        from: Account::Vault,
                        to: Account::Holder(e.payee),
                        amount: e.amount,
                    },
                )
                &&& fx.stored == post
                &&& fx.ttl == standard_ttl()
                &&& fx.event == Event::Released { caller, payee: e.payee, amount: e.amount }
            }
        }),
{
}

/// The payer alone can release: on a funded, `Pending` escrow, a release
/// by the payer authorized only by the payer is accepted.
pub proof fn lemma_payer_alone_releases(e: EscrowData)
    requires
        e.funded,
        e.status == Status::Pending,
    ensures
        step(Some(e), seq![e.payer], Call::Release { caller: e.payer }).1 is Ok,
        step(Some(e), seq![e.payer], Call::Release { caller: e.payer }).0 == Some(
            EscrowData { status: Status::Completed, ..e },
        ),
{
    assert(seq![e.payer][0]@ == e.payer@);
    lemma_release_accepts(e, seq![e.payer], e.payer);
}

/// Refund liveness: on a funded, `Pending` escrow whose arbiter authorized
/// the call, `refund` is accepted whatever the amount; it returns the whole
/// amount from the vault to the payer and marks the escrow refunded,
/// changing nothing else.
pub proof fn lemma_refund_accepts(e: EscrowData, signers: Seq<Address>)
    requires
        e.funded,
        e.status == Status::Pending,
        signed(signers, e.arbiter),
    ensures
        ({
            let o = step(Some(e), signers, Call::Refund);
            let post = EscrowData { status: Status::Refunded, ..e };
            &&& o.0 == Some(post)
            &&& o.1 matches Ok(fx) && {
                &&& fx.transfer == Some(
                    Transfer {
                        token: e.token,
                        from: Account::Vault,
                        to: Account::Holder(e.payer),
                        amount: e.amount,
                    },
                )
                &&& fx.stored == post
                &&& fx.ttl == standard_ttl()
                &&& fx.event == Event::Refunded {
                    arbiter: e.arbiter,
                    payer: e.payer,
                    amount: e.amount,
                }
            }
        }),
{
}

/// Read fidelity: in every state, reading the vault gives back exactly the
/// stored record, and `NotInitialized` when there is none.
pub proof fn lemma_read_is_faithful(s: Option<EscrowData>)
    ensures
        s matches Some(e) ==> read_record(s) == Ok::<EscrowData, EscrowError>(e),
        s is None ==> read_record(s) == Err::<EscrowData, EscrowError>(
            EscrowError::NotInitialized,
        ),
{
}

/// Reading after any accepted call gives back the record the call stored,
/// with the terms of the deal as they were before the call.
pub proof fn lemma_read_after_accepted_call(e: EscrowData, signers: Seq<Address>, call: Call)
    requires
        step(Some(e), signers, call).1 is Ok,
    ensures
        read_record(step(Some(e), signers, call).0) matches Ok(r) && {
            &&& step(Some(e), signers, call).1 matches Ok(fx) && r == fx.stored
            &&& r.payer == e.payer
            &&& r.payee == e.payee
            &&& r.arbiter == e.arbiter
            &&& r.token == e.token
            &&& r.amount == e.amount
        },
{
}

} // verus!
