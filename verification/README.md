# charcoin

The rules of the CHAR Coin Solana program (staking with lockup packages,
reward claims, unstaking with an early-withdrawal penalty, stake-weighted
governance, charity voting, treasury and marketing splits, buyback burns and
private-sale vesting), written as verified state transitions over plain
account values.

- `src/` is the library, checked by Verus. Each instruction takes the
  accounts it reads and writes as plain values, and the current time, and
  returns what to transfer, burn or emit. Its contract says, for every input,
  whether it is refused (and with which error, in which case nothing
  changes) or what every account holds afterwards. `src/laws.rs` holds the
  properties that span several instructions.
- `app/` is the Anchor program around the library: account validation,
  the clock, token transfers and burns, events and logs.
- `tests/` runs the library on concrete values.
