# mentorminds

Verified decision logic of three Soroban governance contracts:

- `pause_guardian`: a circuit breaker that pauses after three consecutive
  recorded failures; unpausing clears the counter.
- `timelock`: operations scheduled with a delay of 48 hours to 30 days,
  executable strictly after `ready_at` plus a one-minute tolerance and
  before they expire 14 days after `ready_at`.
- `upgrade_registry`: per-contract version logs, one time-locked pending
  upgrade at a time with strictly increasing versions, and duplicate-free
  subscriber lists.

Layout:

- `src/` is the Verus library. Each contract's instance storage is a plain
  struct; persistent entries (operations, version logs, subscriber lists)
  are passed to the methods that read or write them. A method returns what
  the contract would answer and, where the contract demands an
  authorization, the address that must give it (`common::Guarded`).
  Addresses are held as their 56-byte strkey text.
- `app/` holds the Soroban contracts: they load storage into the library's
  structs, call the library, obtain the authorizations it names, perform
  cross-contract calls, code swaps and events, and write storage back.
- `tests/` exercise the library against an in-memory ledger.
