# light_protocol

Verified building blocks of the Light Protocol libraries, written in Verus.

- `src/models.rs`: indexer API models (request parameters, account context,
  account state, slot context, owner balance).
- `src/pubkey.rs`: 32-byte account addresses.
- `src/address_tree.rs`: parameters of batched address Merkle trees, their
  defaults and the ordered checks they must pass.
- `src/event.rs`: assembly of a compressed transaction's public event from the
  light system program and account compression program instructions.
- `src/account_meta.rs`: metadata of input compressed accounts and the account
  list in which their trees are registered.
- `src/verify.rs`: preparation of light system program calls: the calling
  program's CPI authority, the `invoke_cpi` instruction data, and the signer check.

`app/` holds what runs around the library: JSON and Borsh encodings of its
types, the panicking front ends, the Solana runtime calls and the verifying key
of the transaction circuit. `tests/` runs the library on concrete values.

Not covered: initialising a batched address tree account
(`init_batched_address_merkle_tree_from_account_info`,
`init_batched_address_merkle_tree_account`,
`get_address_merkle_tree_account_size_from_params`) and the whole-transaction
helper `verify_light_account_infos`. They rest on code that this crate does not
have: the tree account layout and its size (`BatchedMerkleTreeAccount`,
`get_merkle_tree_account_size`), the rollover fee and tree metadata of
`light_merkle_tree_metadata`, the rent check of `light_account_checks`, and the
`CAccountInfo` and `InstructionDataInvokeCpi` types of the SDK and of
`light_compressed_account`.
