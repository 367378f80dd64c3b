# harness

Benchmarks Tari wallets against a base node: the scenarios `B0` and `S0` to `S7`, played against the
console wallet, the `minotari` command line and the payment processor, and a report on each of them
in `baseline_profile.json`.

## Layout

- `src/` is the library, verified with Verus. It holds the decisions of a run and does no input or
  output: a scenario, a suite, a start, a scan or a payment is a value that says what to do next and
  goes on with what came of it.
  - `scenarios.rs`, `suite.rs`, `plan.rs`: what is asked of a wallet, in what order, and what the
    answers come to.
  - `report.rs`, `metrics.rs`, `config.rs`: what is measured, how it is summed up, how a run is set up.
  - `drivers/`: the decisions of the wallet drivers.
  - `tari.rs`, `json.rs`: calls into the Tari crates and `serde_json`. Their contracts are believed;
    each says what it claims of the function that it calls.
  - `signable.rs`: which drafted transactions can be signed.
  - `text.rs`, `amount.rs`: reading and writing text and amounts.
- `app/` is the program around it: processes, files, HTTP, gRPC and the clock. Durations are whole
  nanoseconds in the library; the program writes them in seconds. The gRPC client is generated from
  Tari's `wallet.proto` and `base_node.proto` at build time.
- `tests/` runs the library on concrete values.

## Running

    harness --config config.toml --print-addresses
    harness --config config.toml
    harness --config config.toml --scenario S1

The first prints the address that each wallet has to be funded at, the second plays all scenarios
against all wallets, the third one scenario against the `minotari` wallet.
