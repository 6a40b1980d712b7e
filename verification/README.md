# dolos-midnight

A data node for the Midnight blockchain, built on the Dolos storage model:
it follows finalized Midnight blocks, turns their transactions into entity
deltas (shielded and unshielded UTxOs, Zswap commitments and nullifiers),
commits them to a state store, a write-ahead log and an archive, and answers
queries over HTTP.

The library under `src/` is written in Verus, and Verus verifies all of it;
every function there that computes a result or changes its arguments
states what it does in a contract; the laws that relate several operations (what
undoing a delta restores, what a committed batch lets one read back, the
order in which listings come out, the heights a live subscription yields)
are public proof functions next to the code they speak of.

- `src/model.rs`, `src/store.rs`, `src/work.rs`, `src/chain.rs`,
  `src/domain.rs`: entities, deltas, the stores, the work of one block and
  the chain logic that hands it out.
- `src/block_source.rs`, `src/sync_loop.rs`, `src/pull.rs`: the decisions of
  the block sources and of the sync loop.
- `src/indexer/`: the indexer of ledger transactions and its HTTP listings.
- `src/decrypt.rs`, `src/digest.rs`, `src/text.rs`: trial decryption, SHA-256
  keys and text renderings, over the outside crates that compute them.
- `app/`: the `dolos-midnight` program (command line, configuration file,
  the sync loop and the REST server), which does the I/O around the library.
- `tests/`: tests of the library on concrete values.
