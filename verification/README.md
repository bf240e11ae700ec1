# cw721-non-transferable

A CosmWasm NFT contract whose tokens only the admin can move, and which
records loyalty points per token. A grant of points names the admin's key (or
the key of an admin being installed) as its signer; the host is asked to check
the signature, and the points are stored whenever that check returns, whatever
its verdict.

- `src/` holds the contract's decisions, verified with Verus: routing of
  execute and query messages (`contract.rs`), the grant of points and the
  change of admin (`contract.rs`, `state.rs`), the message types (`msg.rs`),
  base64 (`helpers.rs`) and the digest and text encodings (`encoding.rs`).
- `app/` holds the entry points, storage, JSON messages and the calls into the
  underlying cw721 contract, cw-ownable and the host's signature check.
- `tests/` runs the library on concrete values.
