# databend_meta

Verified pieces of a storage and metadata layer:

- `src/storage_params.rs` — the storage backends (`StorageParams` and one
  config per backend), whether a backend is secure, mapping its root, the
  defaults, and `mask_string`, with the laws on what a masked secret reveals.
- `src/storage_display.rs` — the one-line display of storage params.
- `src/storage_debug.rs` — the debug text of the configs that hold secrets,
  every secret masked.
- `src/read_options.rs` — parquet read options; `prune_pages` and
  `push_down_bitmap` never hold together (a type invariant).
- `src/replace.rs` — the SQL text of a `REPLACE INTO` statement.
- `src/grpc_service.rs` — the decisions of the meta service: the export stream's
  chunking, the handshake (version, decoded credentials, user) and the token
  taken from request metadata.
- `src/text.rs` — decimal notation, joining, prefixes and the debug texts that
  std's formatting gives.

`app/` holds what Verus does not take: serde copies of the storage types with
`Display`/`Debug`, the `Stream` adapter, and the tonic service that plugs the
verified decisions into the meta service.
