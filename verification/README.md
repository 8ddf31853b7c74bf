# native_erc20

The native gas token of an OP-stack chain, exposed as an ERC-20 token at address `0x805`,
with its contracts proved by Verus.

- `src/` is the verified library.
  - `bytes`, `uint256`, `address`: big-endian words, 256-bit integers and addresses.
  - `abi`: decoding the token interface's call data and encoding its return data.
  - `slots`: the storage layout of allowances, the minter and the total supply.
  - `host`: the requests a call makes of the EVM host, the host's replies, results and logs.
  - `inspector`, `precompile`, `praf`: the three entry points, each a step function from the
    host's reply to the next request or the result.
  - `ledger`, `*_model`, `laws`: a host that keeps a plain ledger, what each entry point does
    to it, and the properties proved of that.
  - `env`, `tx`: the EVM environment of a block and the transaction environment of a deposit.
- `app/` drives the step functions against revm's context and converts to and from the
  alloy, op-alloy and revm types.
- `tests/` runs the library against the alloy encoders and a map-backed host.
