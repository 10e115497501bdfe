//! The vault's answers and effects on concrete calls: each refusal with
//! its error, each accepted call with its exact effects, and the laws of
//! the vault on concrete sequences of calls.

use escrow_vault::address::Address;
use escrow_vault::effects::{
    instance_ttl, Account, Effects, Event, DAY_IN_LEDGERS, INSTANCE_BUMP_AMOUNT,
    INSTANCE_LIFETIME_THRESHOLD,
};
use escrow_vault::escrow::{EscrowError, Status};
use escrow_vault::vault::{Call, CallError, EscrowVault};

const AMOUNT: i128 = 1_000;

fn addr(s: &str) -> Address {
    Address::new(s.to_string())
}

fn payer() -> Address {
    addr("GPAYER")
}
fn payee() -> Address {
    addr("GPAYEE")
}
fn arbiter() -> Address {
    addr("GARBITER")
}
fn token() -> Address {
    addr("CTOKEN")
}
fn outsider() -> Address {
    addr("GOUTSIDER")
}

fn everyone() -> Vec<Address> {
    vec![payer(), payee(), arbiter(), outsider()]
}

fn initialized() -> EscrowVault {
    let mut v = EscrowVault::new(None);
    v.initialize(&everyone(), payer(), payee(), arbiter(), token(), AMOUNT).unwrap();
    v
}

fn funded() -> EscrowVault {
    let mut v = initialized();
    v.deposit(&everyone()).unwrap();
    v
}

fn contract_error(r: Result<Effects, CallError>) -> EscrowError {
    match r {
        Err(CallError::Contract(e)) => e,
        other => panic!("expected a contract error, got {:?}", other),
    }
}

fn missing_auth(r: Result<Effects, CallError>) -> Address {
    match r {
        Err(CallError::MissingAuth(a)) => a,
        other => panic!("expected a missing authorization, got {:?}", other),
    }
}

fn status_of(v: &EscrowVault) -> Status {
    v.get_status().unwrap()
}

#[test]
fn ledger_constants() {
    assert_eq!(DAY_IN_LEDGERS, 17280);
    assert_eq!(INSTANCE_BUMP_AMOUNT, 518400);
    assert_eq!(INSTANCE_LIFETIME_THRESHOLD, 501120);
    let ttl = instance_ttl();
    assert_eq!(ttl.threshold, 501120);
    assert_eq!(ttl.extend_to, 518400);
}

#[test]
fn error_codes() {
    assert_eq!(EscrowError::AlreadyInitialized.code(), 1);
    assert_eq!(EscrowError::NotInitialized.code(), 2);
    assert_eq!(EscrowError::InvalidAmount.code(), 3);
    assert_eq!(EscrowError::InvalidParties.code(), 4);
    assert_eq!(EscrowError::AlreadyFunded.code(), 5);
    assert_eq!(EscrowError::NotFunded.code(), 6);
    assert_eq!(EscrowError::NotPending.code(), 7);
    assert_eq!(EscrowError::Unauthorized.code(), 8);
}

#[test]
fn addresses_compare_by_strkey() {
    let a = addr("GAAA");
    assert!(a.same(&addr("GAAA")));
    assert!(!a.same(&addr("GAAB")));
    assert_eq!(a, addr("GAAA"));
    assert_ne!(a, addr("GAAB"));
    assert_eq!(a.as_str(), "GAAA");
    assert_eq!(a.clone().as_str(), "GAAA");
}

#[test]
fn initialize_effects() {
    let mut v = EscrowVault::new(None);
    let fx = v.initialize(&vec![payer()], payer(), payee(), arbiter(), token(), AMOUNT).unwrap();
    assert!(fx.transfer.is_none());
    assert_eq!(fx.ttl, instance_ttl());
    assert_eq!(fx.stored.payer, payer());
    assert_eq!(fx.stored.amount, AMOUNT);
    assert!(!fx.stored.funded);
    assert_eq!(fx.stored.status, Status::Pending);
    match fx.event {
        Event::Initialized { payer: p, payee: q, arbiter: a, token: t, amount } => {
            assert_eq!(p, payer());
            assert_eq!(q, payee());
            assert_eq!(a, arbiter());
            assert_eq!(t, token());
            assert_eq!(amount, AMOUNT);
        }
        other => panic!("unexpected event {:?}", other),
    }
    assert_eq!(status_of(&v), Status::Pending);
}

#[test]
fn initialize_needs_the_payer_signature() {
    let mut v = EscrowVault::new(None);
    let r = v.initialize(&vec![payee(), arbiter()], payer(), payee(), arbiter(), token(), AMOUNT);
    assert_eq!(missing_auth(r), payer());
    assert_eq!(v.get_status(), Err(EscrowError::NotInitialized));
}

#[test]
fn initialize_refusals() {
    let mut v = EscrowVault::new(None);
    let r = v.initialize(&everyone(), payer(), payee(), arbiter(), token(), 0);
    assert_eq!(contract_error(r), EscrowError::InvalidAmount);
    let r = v.initialize(&everyone(), payer(), payee(), arbiter(), token(), -5);
    assert_eq!(contract_error(r), EscrowError::InvalidAmount);
    let r = v.initialize(&everyone(), payer(), payer(), arbiter(), token(), AMOUNT);
    assert_eq!(contract_error(r), EscrowError::InvalidParties);
    let r = v.initialize(&everyone(), payer(), payee(), payer(), token(), AMOUNT);
    assert_eq!(contract_error(r), EscrowError::InvalidParties);
    let r = v.initialize(&everyone(), payer(), payee(), payee(), token(), AMOUNT);
    assert_eq!(contract_error(r), EscrowError::InvalidParties);
    // Amount is checked before the parties.
    let r = v.initialize(&everyone(), payer(), payer(), payer(), token(), 0);
    assert_eq!(contract_error(r), EscrowError::InvalidAmount);
    assert!(v.escrow.is_none());

    let mut v = initialized();
    let r = v.initialize(&everyone(), payee(), payer(), arbiter(), token(), 7);
    assert_eq!(contract_error(r), EscrowError::AlreadyInitialized);
    assert_eq!(v.get_escrow().unwrap().payer, payer());
    assert_eq!(v.get_escrow().unwrap().amount, AMOUNT);
}

#[test]
fn reads_before_initialize() {
    let v = EscrowVault::new(None);
    assert_eq!(v.get_status(), Err(EscrowError::NotInitialized));
    assert!(matches!(v.get_escrow(), Err(EscrowError::NotInitialized)));
    assert!(matches!(v.required_signer(&Call::Deposit), Err(EscrowError::NotInitialized)));
    assert!(matches!(v.required_signer(&Call::Refund), Err(EscrowError::NotInitialized)));
    assert!(matches!(
        v.required_signer(&Call::Release { caller: payer() }),
        Err(EscrowError::NotInitialized)
    ));
    let init = Call::Initialize {
        payer: payer(),
        payee: payee(),
        arbiter: arbiter(),
        token: token(),
        amount: AMOUNT,
    };
    assert_eq!(v.required_signer(&init).unwrap(), payer());
}

#[test]
fn calls_before_initialize_are_refused() {
    let mut v = EscrowVault::new(None);
    assert_eq!(contract_error(v.deposit(&everyone())), EscrowError::NotInitialized);
    assert_eq!(contract_error(v.release(&everyone(), payer())), EscrowError::NotInitialized);
    assert_eq!(contract_error(v.refund(&everyone())), EscrowError::NotInitialized);
    assert!(v.escrow.is_none());
}

#[test]
fn required_signers_of_each_call() {
    let v = initialized();
    assert_eq!(v.required_signer(&Call::Deposit).unwrap(), payer());
    assert_eq!(v.required_signer(&Call::Refund).unwrap(), arbiter());
    assert_eq!(v.required_signer(&Call::Release { caller: outsider() }).unwrap(), outsider());
}

#[test]
fn deposit_effects() {
    let mut v = initialized();
    let fx = v.deposit(&vec![payer()]).unwrap();
    let t = fx.transfer.unwrap();
    assert_eq!(t.token, token());
    assert!(matches!(t.from, Account::Holder(ref a) if *a == payer()));
    assert!(matches!(t.to, Account::Vault));
    assert_eq!(t.amount, AMOUNT);
    assert!(fx.stored.funded);
    assert_eq!(fx.ttl, instance_ttl());
    match fx.event {
        Event::Deposited { payer: p, amount } => {
            assert_eq!(p, payer());
            assert_eq!(amount, AMOUNT);
        }
        other => panic!("unexpected event {:?}", other),
    }
    assert!(v.get_escrow().unwrap().funded);
}

#[test]
fn deposit_refusals() {
    let mut v = initialized();
    assert_eq!(missing_auth(v.deposit(&vec![arbiter(), payee()])), payer());
    assert!(!v.get_escrow().unwrap().funded);
    let mut v = funded();
    assert_eq!(contract_error(v.deposit(&everyone())), EscrowError::AlreadyFunded);
    // Once funded, a deposit is refused as `AlreadyFunded`, also after the
    // escrow was released or refunded.
    v.release(&everyone(), arbiter()).unwrap();
    assert_eq!(contract_error(v.deposit(&everyone())), EscrowError::AlreadyFunded);
    let mut v = funded();
    v.refund(&everyone()).unwrap();
    assert_eq!(contract_error(v.deposit(&everyone())), EscrowError::AlreadyFunded);
}

#[test]
fn release_effects() {
    let mut v = funded();
    let fx = v.release(&vec![arbiter()], arbiter()).unwrap();
    let t = fx.transfer.unwrap();
    assert_eq!(t.token, token());
    assert!(matches!(t.from, Account::Vault));
    assert!(matches!(t.to, Account::Holder(ref a) if *a == payee()));
    assert_eq!(t.amount, AMOUNT);
    assert_eq!(fx.stored.status, Status::Completed);
    match fx.event {
        Event::Released { caller, payee: p, amount } => {
            assert_eq!(caller, arbiter());
            assert_eq!(p, payee());
            assert_eq!(amount, AMOUNT);
        }
        other => panic!("unexpected event {:?}", other),
    }
    assert_eq!(status_of(&v), Status::Completed);
}

#[test]
fn release_refusals() {
    let mut v = funded();
    // The caller's own authorization comes first.
    assert_eq!(missing_auth(v.release(&vec![arbiter()], payer())), payer());
    assert_eq!(missing_auth(v.release(&vec![], outsider())), outsider());
    assert_eq!(contract_error(v.release(&everyone(), outsider())), EscrowError::Unauthorized);
    assert_eq!(contract_error(v.release(&everyone(), payee())), EscrowError::Unauthorized);
    assert_eq!(status_of(&v), Status::Pending);

    let mut v = initialized();
    assert_eq!(contract_error(v.release(&everyone(), payer())), EscrowError::NotFunded);
    // Being neither payer nor arbiter is reported before the status.
    assert_eq!(contract_error(v.release(&everyone(), payee())), EscrowError::Unauthorized);

    let mut v = funded();
    v.refund(&everyone()).unwrap();
    assert_eq!(contract_error(v.release(&everyone(), payer())), EscrowError::NotPending);
}

#[test]
fn refund_effects() {
    let mut v = funded();
    let fx = v.refund(&vec![arbiter()]).unwrap();
    let t = fx.transfer.unwrap();
    assert_eq!(t.token, token());
    assert!(matches!(t.from, Account::Vault));
    assert!(matches!(t.to, Account::Holder(ref a) if *a == payer()));
    assert_eq!(t.amount, AMOUNT);
    assert_eq!(fx.stored.status, Status::Refunded);
    match fx.event {
        Event::Refunded { arbiter: a, payer: p, amount } => {
            assert_eq!(a, arbiter());
            assert_eq!(p, payer());
            assert_eq!(amount, AMOUNT);
        }
        other => panic!("unexpected event {:?}", other),
    }
    assert_eq!(status_of(&v), Status::Refunded);
}

#[test]
fn refund_refusals() {
    let mut v = funded();
    // The payer cannot force a refund without the arbiter.
    assert_eq!(missing_auth(v.refund(&vec![payer()])), arbiter());
    assert_eq!(status_of(&v), Status::Pending);
    let mut v = initialized();
    assert_eq!(contract_error(v.refund(&everyone())), EscrowError::NotFunded);
    let mut v = funded();
    v.release(&everyone(), payer()).unwrap();
    assert_eq!(contract_error(v.refund(&everyone())), EscrowError::NotPending);
}

#[test]
fn resolved_escrow_refuses_every_call() {
    for refund_first in [false, true] {
        let mut v = funded();
        if refund_first {
            v.refund(&everyone()).unwrap();
        } else {
            v.release(&everyone(), payer()).unwrap();
        }
        let before = status_of(&v);
        assert!(v.initialize(&everyone(), payer(), payee(), arbiter(), token(), AMOUNT).is_err());
        assert!(v.deposit(&everyone()).is_err());
        assert!(v.release(&everyone(), payer()).is_err());
        assert!(v.release(&everyone(), arbiter()).is_err());
        assert!(v.refund(&everyone()).is_err());
        assert_eq!(status_of(&v), before);
        assert!(v.get_escrow().unwrap().funded);
    }
}

#[test]
fn refused_call_changes_nothing() {
    let mut v = initialized();
    let _ = v.release(&everyone(), payer());
    let _ = v.refund(&everyone());
    let _ = v.deposit(&vec![]);
    let e = v.get_escrow().unwrap();
    assert!(!e.funded);
    assert_eq!(e.status, Status::Pending);
    assert_eq!(e.amount, AMOUNT);
}

fn inflow(fx: &Effects) -> i128 {
    match &fx.transfer {
        None => 0,
        Some(t) => {
            let into = if matches!(t.to, Account::Vault) { t.amount } else { 0 };
            let out = if matches!(t.from, Account::Vault) { t.amount } else { 0 };
            into - out
        }
    }
}

#[test]
fn funds_are_conserved_and_paid_out_once() {
    let mut v = EscrowVault::new(None);
    let mut held: i128 = 0;
    let mut payouts = 0;
    for round in 0..3 {
        let results = vec![
            v.initialize(&everyone(), payer(), payee(), arbiter(), token(), AMOUNT),
            v.deposit(&everyone()),
            v.release(&everyone(), if round == 0 { outsider() } else { payer() }),
            v.refund(&everyone()),
            v.deposit(&everyone()),
            v.release(&everyone(), arbiter()),
        ];
        for r in results {
            if let Ok(fx) = r {
                held += inflow(&fx);
                if matches!(fx.transfer, Some(ref t) if matches!(t.from, Account::Vault)) {
                    payouts += 1;
                }
            }
            assert!(held >= 0);
        }
    }
    assert_eq!(payouts, 1);
    assert_eq!(held, 0);
    assert_eq!(status_of(&v), Status::Refunded);
}

#[test]
fn terms_stay_fixed_through_the_lifecycle() {
    let mut v = initialized();
    v.deposit(&everyone()).unwrap();
    let _ = v.initialize(&everyone(), outsider(), payee(), arbiter(), token(), 5);
    v.release(&everyone(), payer()).unwrap();
    let e = v.get_escrow().unwrap();
    assert_eq!(e.payer, payer());
    assert_eq!(e.payee, payee());
    assert_eq!(e.arbiter, arbiter());
    assert_eq!(e.token, token());
    assert_eq!(e.amount, AMOUNT);
    assert!(e.funded);
    assert_eq!(e.status, Status::Completed);
}
