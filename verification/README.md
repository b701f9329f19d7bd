# mentorminds

Verified logic of the MentorMinds mentoring platform on Soroban: session
registration and scheduling, session-completion oracle, multi-signature administration,
payment routing, referral rewards, price oracle, reconciliation engine,
rent reserve, pause guardian, onboarding escrow, and the shared scoring and
integrity modules.

Layout:

- `src/` — the library, written in Verus. Each contract's state is a plain
  struct (accounts and symbols are integer ids, digests are four 64-bit
  words); public operations state their results, their refusals and their
  effects on the state, and a refused operation leaves the state unchanged.
  Calls into other contracts are handed back as values (a mint order, an
  escrow plan, a call to perform) and their answers are taken as arguments.
  Digests are taken with the ledger host's SHA-256 from inside the library;
  identifiers enter them by their XDR encodings.
- `tests/` — scenario tests run against the compiled library.
- `app/` — the ledger-host side: identifier interning and XDR encodings,
  and contract entry points that load state, run the library and perform
  the cross-contract calls it asks for.
