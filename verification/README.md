# veritixpay

Ticketing payments for Stellar: a token with escrows, disputes, revenue
splits and recurring payments, and an escrow contract for any token with
multi-recipient escrows, ticket sales, revenue splits and airdrops.

The decisions of both contracts are verified with Verus.

- `src/token/` — the token contract's state (`VeritixToken`) and every
  operation on it, each with a contract over the state's model
  (`TokenModel`): exact errors and exact new state. Every entry point of the
  contract keeps the gap between the total supply and the sum of balances
  unchanged, and a fresh token starts with none; the low-level helpers
  `receive_balance`, `spend_balance`, `increase_supply` and
  `decrease_supply` each change one side only. `src/token/laws.rs` holds the properties
  that span several calls.
- `src/pay/` — the escrow contract's state (`VeriTixPay`) and its
  operations. Token movements are returned as `TokenTransfer` values for the
  host to carry out. `src/pay/laws.rs` holds its cross-call properties.
- `src/sums.rs` — sums over balance maps and their lemmas.
- `app/` — the Soroban contracts around the library: storage, signatures,
  events and calls into token contracts. Accounts are numbered by a registry
  that maps host addresses to the numbers the library uses.
- `tests/` — scenarios run against the library.
