# riglr_solana_events

Decoders for the instructions and logged events of Solana DeFi programs (Bonk, Jupiter,
MarginFi, Meteora, Orca Whirlpool, PumpSwap, Raydium AMM V4 and CLMM), written in Verus with
their behaviour stated in `requires` / `ensures` contracts and proved.

Layout:

- `src/common.rs`: little-endian readers, discriminator checks, account access and validation.
- `src/borsh_records.rs`, `src/text.rs`, `src/clock.rs`: Borsh strings and options, decimal and
  base58 text, and the wall clock; base58 goes through the `bs58` crate.
- `src/types.rs`, `src/error.rs`: addresses, event metadata, event parameters, transfers, errors.
- `src/factory.rs`: protocols and protocol types, and what a parser is handed.
- `src/protocols/`: one module per program, each with its record layouts, decoders, a table
  from discriminators to decoders, and a parser.
- `src/registry.rs`: parsers filed by protocol and tried in turn.
- `app/lib.rs`: the floating-point price helpers, the float-carrying Meteora records and the
  JSON form of a whirlpool account, which stay outside the verified library.
- `tests/`: executable tests of the library.
