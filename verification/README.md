# t22

A program for Token-2022 mints, as a verified library.

Each operation is a function from the accounts and arguments that it is given to
the calls of other programs that carry it out, or to the reason why it is
refused. The contract of the function says exactly which calls these are, byte
for byte, and when it is refused with which error.

## Layout

- `src/` is the library. Verus verifies all of it.
  - `t22.rs`, `remittance.rs`: the operations.
  - `constraint.rs`: which accounts an operation takes. Every operation checks it
    before anything else.
  - `plan.rs`, `instruction.rs`, `key.rs`, `error.rs`: plans, calls and errors.
  - `token.rs`, `system.rs`, `metadata.rs`: the instructions of the token
    programs, the system program and the token metadata interface.
  - `state.rs`, `fee.rs`, `extension.rs`: what mints and token accounts store,
    what a transfer costs, how large a mint is.
  - `creation_laws.rs`, `operation_laws.rs`: what holds of all of them.
- `app/` is the on-chain program around it. It reads the sysvars and the data of
  accounts, checks that accounts sign and may be written, and makes the calls.
- `tests/` runs the operations, on given inputs and on a simulated chain.

## What is taken on trust

The functions marked `external_body` build instructions, measure mints and read
stored state with the `spl-token-2022`, `spl-token-metadata` and system program
interfaces. Their contracts spell out what those interfaces do, byte for byte:
the instructions, the sizes, the fees, and what is read of the base and of the
extensions of a mint.

What the token program does with an instruction is not modelled.
