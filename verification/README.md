# dune_staking

Reward accounting of a Solana staking pool, verified with Verus.

- `src/` is the verified library: addresses (`key`), error codes (`errors`),
  seeds and scale (`constants`), guardian configuration (`config`), the pool
  (`pool`), per-user stake records (`stake`), the accounting of a stake
  instruction (`instructions`), the transfer-fee and transfer-hook extensions
  of token-2022 mints (`token`), and the layout of remaining accounts
  (`remaining_accounts`). Laws are public proof functions beside the functions
  they speak of.
- `app/` is the on-chain program around it: Anchor account layouts, the
  instruction entry points, clock reads, cross-program token transfers and
  events.
- `tests/` runs the library on concrete values, including real token-2022 mint
  data built with `spl-token-2022`.
