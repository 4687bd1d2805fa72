# escrow

A verified three-party escrow: sellers (payees), buyers and resolvers, with
fee accounting, disputes with appeals, multi-resolver voting, fallback
resolvers, token baskets, expiring escrows, a buyer/seller message thread,
timelocked administration and batched calls.

The whole contract state is the plain value `Escrow`; every entry point is a
method on it whose contract states exactly when it succeeds, which error it
reports otherwise (leaving the state untouched), and what the new state is.
Token movements are not made here: an operation that moves funds returns the
`Transfer`s the hosting layer must perform, all or none. What an operation
announces is appended to the state's event log (`Escrow::events`), and each
contract says which event, with which payload, a success appends.

Layout of `src/`:

- `types.rs`, `state.rs`: the data model and its well-formedness.
- `fees.rs`, `payout.rs`: fee arithmetic and the payments a release, refund
  or payout asks for.
- `resolvers.rs`: resolver sets, votes and tallies.
- `lifecycle.rs`: creating escrows (single, multi-resolver, fallback,
  basket, expiring, batched).
- `flow.rs`: funding, shipping, delivery, release, cancellation, refunds,
  expiry and messages.
- `disputes.rs`: raising, deciding, appealing and finalizing disputes.
- `admin.rs`: initialization, fees, pausing, the timelocked changes and the
  emergency drain.
- `queries.rs`: read-only views.
- `batch.rs`: several named calls run as one.
- `events.rs`, `errors.rs`, `reader.rs`, `token.rs`: the events and their
  payloads, error codes, a zero-padding input cursor, and an adversarial token used to test
  that failed transfers undo an operation.
- `laws.rs`: properties that span operations, each proved.

`app/` is the Soroban contract around the library: it authenticates the
acting accounts, keeps the model in contract storage (with a numbering of
the addresses the model speaks of), makes the transfers an operation returns
through each token's contract and publishes the events it announced.

The tests under `tests/` drive the library through a small host that keeps
token balances and undoes an operation whose transfers cannot all be made.
