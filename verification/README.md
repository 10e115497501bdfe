# escrow_vault

The rules of an arbitrated escrow deal (payer, payee, neutral arbiter),
verified with Verus.

- `src/address.rs`: addresses, held as their strkey text.
- `src/escrow.rs`: the escrow record, its status and the error codes.
- `src/effects.rs`: what an accepted call asks the host to carry out
  (token transfer, record write, storage lifetime extension, event).
- `src/vault.rs`: the vault as a state machine; each call's outcome is
  stated by a spec function and each method is proved to compute it.
- `src/laws.rs`: properties across calls (invariant, finality of resolved
  escrows, authorization, conservation of funds, no double spend).
- `app/`: the Soroban contract that stores the record, demands the
  authorizations, and carries out the effects the vault decides.
