# modeltrace

The rules of ModelTrace, verified with Verus: attestation, metering and
settlement of AI inference on a ledger that both parties can read and neither
controls.

- `src/` is the library. Each contract call is a function from the ledger
  entries that it reads, and its arguments, to a plan: the steps that the host
  takes in order, and how the call ends.
  - `audit_registry` keeps attestations and decides which can be billed against.
  - `usage_meter` turns attested usage into billing records.
  - `payment_router` escrows deposits and settles them step by step.
- In each of the three, `types` holds the rows, events and steps, `rules` says
  what each call decides, and a file named for the contract implements it.
  `ledger` models the ledger that the calls run on, and the laws (`laws`, or
  `conservation`, `safety` and `recovery` for the router) are proved over it.
- `app/` is the Soroban contracts: they read entries, ask the library, and take
  the steps.
- `tests/` runs the library on the Soroban test host.

The ledger models take tokens to move exactly what they are asked to. The router
calls a token that a payer chose, so what a hostile token can do is stated of
the steps themselves: rows are written and the marker is set before any
transfer, and whatever calls a token makes from inside one are refused or ask
for no transfer.
