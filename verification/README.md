# marketplace

An NFT marketplace program, verified with Verus. Sellers list an NFT of a
verified collection at a price; they may withdraw it; buyers purchase it, the
marketplace keeping a fee, in basis points of the price, for its treasury.

- `src/` is the verified library. Each instruction (`instructions/`) checks
  its accounts (`try_accounts`, against the rules in `constraints.rs`),
  records what it must (`state.rs`) and returns the calls for the runtime to
  make (`action.rs`). `marketplace.rs` holds the handlers and each whole
  instruction; `laws.rs` the properties that span instructions. Addresses
  derived from seeds go through `anchor_lang` (`pubkey.rs`); the ids of the
  token, associated-token and metadata programs come from `anchor_spl`
  (`programs.rs`).
- `app/` is the on-chain program around the library: account plumbing, and
  the token and system program calls.
- `tests/` runs the library against addresses derived by `anchor_lang` and
  `anchor_spl`.
