# k1_yield_vault

Share accounting for a USDC-denominated, multi-strategy yield vault, verified
with Verus.

- `src/state/vault.rs`: the vault record, the arithmetic of its shares, fees and
  total assets as spec functions, and the vault's methods proved against them.
- `src/state/strategy.rs`: the strategy record.
- `src/instructions/`: one file per instruction. Each instruction updates the
  vault and strategy records and returns the token operations (transfers,
  mints, burns) it asks for, in order; on an error the records are left as
  they were.
- `src/laws.rs`: properties across instructions: fee splits keep every unit,
  deposits do not dilute holders, a deposit followed by a withdrawal never
  profits, the performance fee respects the high-water mark, the share count
  follows the share supply, a paused vault refuses deposits and withdrawals.
- `app/`: the on-chain program: account layouts and validation, instruction
  data, and the token program calls.
