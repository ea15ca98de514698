# liquid_swaps

Swaps between Lightning, Bitcoin and the Liquid network, seen from the Liquid side: reading the
provider's answer to the creation of a swap, deriving the address to which the coins are locked,
and making and signing the claim or the refund that ends the swap, by its script alone or together
with the provider.

The library under `src/` is written in Rust and verified with Verus.

- `script`, `hex_text`, `bytes`: scripts, hexadecimal text and the numbers that bytes spell.
- `keys`, `musig`, `taproot`, `address`, `chain`, `range_proof`, `blinding`: keys, joint
  signatures, taproot trees, addresses, transactions and confidential outputs. The cryptography and the wire formats
  are those of the `bitcoin`, `elements` and `secp256k1` crates, which are called through small
  wrappers; the contract of each wrapper says what is taken for granted of the call.
- `boltz`: what is said to and heard from the provider.
- `swap_script`, `lockup`, `cosign`, `swap_tx`, `signing`: the swap itself.
- `laws`: what holds of the library as a whole.

A function that needs random numbers comes in two forms: one that draws them, and one that takes
what was drawn and says exactly what it gives for it. A function that cannot do its work on some
inputs asks for the others in its `requires`; beside it stands one that tests for them first.

`app/` talks to the chain and to the provider, and `tests/` runs the library.
