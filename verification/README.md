# stakeable_token

A verified model of a stakeable token contract for the Casper blockchain:
staking with shares and a share price, daily snapshots of inflation, referral
rewards with critical mass, liquidity stakes, a liquidity guard that shifts
inflation between stakers and liquidity providers, and the keeper's
administration.

The contract's state is one value, `StakeableToken`; each entry point is a
method that takes the caller, the block time and the answers of other
contracts (prices, swaps, transfers) as plain arguments, and returns the new
state's result. Every method states in its contract what it returns, how
the state changes and on which inputs it refuses; which error a refusal gives
is stated where callers tell refusals apart (keeper checks, ids out of range,
missing or inactive stakes).

Layout of `src/`:

- `u256`, `key`, `dict`, `types`, `bytes`: 256-bit amounts, addresses, the
  contract's dictionaries, the stored records and their byte encoding.
- `timing`, `helper`, `ids`: contract days, stake day arithmetic, record ids.
- `globals`, `token`, `shares`, `rewards`, `schedule`, `referral`: totals,
  balances, share and reward formulas, schedules of ending shares, critical
  mass.
- `snapshot`, `daily`, `guard`: daily snapshots, the liquidity guard and its
  inflation table.
- `staking`, `interest`, `liquidity`, `batch`, `pages`: the entry points on
  stakes, referral interest and liquidity stakes.
- `admin`, `stable`, `transfer`: keeper operations, the stable coin price,
  forwarding funds.
- `laws`: properties that span several operations, proved.

`app/` is a small command-line ledger around the library; `tests/` runs the
library on concrete values.
