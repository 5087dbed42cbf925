# xcavate_education

Verified decision logic for two on-chain programs: region governance (regional
operators propose regions, XCAV holders vote, seats change hands through
resignation, removal votes and auctions) and learning modules (modules are
created and fractionalized, sponsored, booked, delivered, scored and settled,
or proposed and built through community review).

Every action is a function from the state it reads to the state it writes
and a list of `Effect`s: token moves between named accounts (`Pot`s), mints,
burns and escrow closes. The contracts state, for every input, which error
an action returns or exactly what it writes and moves.

- `src/` is the library, verified with Verus. `laws.rs` holds the properties
  that span several actions (how votes count, what a settlement pays, which
  actions undo each other).
- `tests/` runs the library on concrete scenarios.
- `app/` performs the effects as token-program calls and converts between
  account addresses and the library's `Key`.

Two calls go to `anchor-spl`: the classic token program's id, and
token-2022's parse of a mint's extension list, used to refuse payment and
governance mints whose extensions break escrow accounting.
