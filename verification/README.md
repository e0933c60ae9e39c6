# velocity_fuzz

The verified core of a set of fuzzing harnesses for `velocity`, a perpetuals
exchange on Solana. A harness plays random actions against the compiled exchange
in a virtual machine and checks, after every action, that the exchange is still
solvent and consistent. A harness that is itself wrong either cries wolf or stays
silent, so the part of it that decides is proved here with Verus.

## Layout

- `src/` is the library. Every function in it is verified.
  - `wire`, `keys`, `programs`, `envelope`, `lazer`: encodings, addresses,
    signatures and the messages that carry them.
  - `accounts`, `setup`, `scenario`, `fixture`: the accounts that a scenario
    starts from, and the steps that create them.
  - `trading`, `user_actions`, `spot_actions`, `insurance`, `oracle`,
    `signed_msg`, `margin`, `compound`: the actions of the standard scenario. Each
    one states the whole transaction that it sends.
  - `book`, `order_calls`: orders that go through the market's book.
  - `model`, `invariants`, `invariant_laws`: what the accounts must satisfy, and
    what it means when nothing is reported.
  - `liq`, `pause`, `settlement`, `revshare`, `swift`, `repay`: scenarios of their
    own, each with the verdict on what the exchange answered.
  - `amm_pricing`: properties of the AMM's arithmetic.
  - `idl`: the interface description, cut to what the generator can read.
- `tests/` runs the library on concrete values.
- `app/` runs the machine: it performs the steps of a setup, sends transactions,
  reads accounts and hands what it read to the library.

## Conventions

An action is a function from the scenario and the fuzzer's choices to a
`Transaction`. What only the running exchange can know, such as a balance, a price
or an open order's id, is an argument. A snapshot of the exchange's accounts is a
plain value, and the invariants are functions of it and of the history before it.

A few functions call other crates for what those define: program-derived
addresses, base58, Ed25519 keys and signatures, and the encoding of a signed price
update. Their contracts say what is taken on trust.
