# areal_contracts

The rules of two Areal Finance programs as a Verus library: a decentralised exchange
(`native_dex`) and the ownership token of a tokenised project (`ownership_token`).

Every instruction is a function from plain values to plain values. It takes the accounts as the
runtime passes them, the decoded state, and the arguments. It returns either the reason for which
it is refused, or an outcome: the state afterwards, the transfers and calls to carry out, and the
event to report. A refused instruction changes nothing.

## Layout

- `src/account.rs`, `address.rs`, `bytes.rs`, `args.rs`, `seeds.rs`, `programs.rs`: accounts,
  addresses, numbers in bytes, arguments, derived addresses.
- `src/actions.rs`, `calls.rs`: what an accepted instruction orders.
- `src/steps.rs`, `src/*/steps.rs`: the order in which it is carried out, and which instructions
  write all state before tokens or authority change hands.
- `src/math.rs`, `native_dex/amm.rs`: exact division, roots, the trading curve, fees and shares.
- `src/native_dex/instructions/`, `src/ownership_token/instructions/`: one file per instruction,
  with its decision table (`..._result`), its handler, and the laws that concern it alone.
- `src/*/constraints.rs`, `program.rs`: the conditions on each account slot, and the instructions
  as they are called.
- `src/*/layout.rs`: the marker of each account, how state lies behind it, and that reading
  gives back what was written.
- `src/native_dex/laws.rs`: what holds of the exchange as a whole.
- `src/native_dex/solvency.rs`: that every instruction leaves a pool able to pay its reserves and
  all accrued fees.
- `app/`: the on-chain shell.

Addresses and limits that a deployment pins are fields of `native_dex::constants::DexParams`. The
arithmetic of price bins is supplied by the deployment: the library takes the bin ledger's answers
as arguments and returns orders to it.

The one outside call is the derivation of program addresses, `address::find_program_address`.
