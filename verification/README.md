# soroban_wasm

A verified library that inspects compiled Soroban contracts: which functions a
WebAssembly binary exports, which typed parameters its contract spec gives them,
and what its memories, imports, tables and start function are.

- `src/` is the library, written in Verus. `laws.rs` states what relates its
  functions to each other.
- `tests/` runs the library on hand-made binaries.
- `app/` reads a binary from disk, and has the serialisable form of the
  structural summary.

The binary format is decoded by `wasmparser` and the contract spec by
`stellar-xdr`. What the library takes from these crates without proof is stated
in the contracts of the `external_body` functions in `reader.rs`,
`contract_spec.rs` and `text.rs`.
