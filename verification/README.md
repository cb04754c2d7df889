# stellar_insured

A verified core for the Stellar Insured contract suite, written in Verus.

Each contract's persistent state is a plain Rust struct with a
well-formedness invariant, and each entry point is a method whose
`requires`/`ensures` state exactly which error it returns on which input and
what the state becomes. A refused call leaves the state as it was, as the
host does when a contract returns an error. Where a contract stops outright
on an input (governance and policy do), the entry point's `requires` leaves
that input out and a public check function (`vote_check`, `execute_check`,
`renew_check`, ...) names the reason; the contract shell runs the check first
and stops with the contract's message. Entry points take the ledger
time, the caller and the answers of cross-contract queries (token balances,
supply, pool figures, policy lookups) as arguments, and return what the host
must carry out (token transfers, governance actions, settlement orders).

## Layout

- `src/` — the verified library
  - `admin` — the two-step, time-locked admin hand-over, with its laws
  - `risk_pool`, `policy`, `claims`, `governance` — the insurance contracts
  - `escrow/` — multi-signature escrow
  - `bridge/` — the multi-signature property bridge
  - `ai_valuation/` — the valuation engine: feature cache, predictions,
    ensembles, bias and drift checks, explanation texts
  - `random` — selection from host-drawn positions
  - `table`, `sums`, `address`, `util` — a map with a `Map` view, sums over
    finite sets, account values, small helpers
  - `host` — the one host function the library calls (SHA-256)
- `tests/` — tests run against the compiled library
- `app/` — the Soroban contract shells: storage, authorization, events,
  cross-contract calls, PRNG draws
