# registry_mcp

An MCP server for managing a Docker Distribution / OCI registry: listing
repositories and tags, inspecting manifests, computing deduplicated disk usage,
tagging and untagging, deleting manifests, migrating images from other
registries, and running garbage collection.

## Layout

- `src/` — the library, verified with Verus. It holds every decision the
  server makes: image reference parsing, bearer-challenge parsing,
  authentication header selection, endpoint URLs, how response statuses and
  headers become results, manifest summaries, deduplicated disk-usage
  accounting, copy bookkeeping, tool outputs and messages, configuration
  validation, GC invocations, JWT key selection and the OAuth metadata.
  - `text.rs` character-level helpers (search, trim, decimal formatting)
  - `migrate.rs` source references and copy statistics
  - `registry/` authentication and the client's response handling
  - `tools/` the outputs and errors of each tool
  - `gc/` strategy selection and what each strategy runs
  - `auth/` caller identity, JWT checks, middleware decisions, discovery metadata
  - `config.rs`, `error.rs`, `types.rs`
- `app/` — the server around it: HTTP requests (reqwest), the MCP transport
  (rmcp, axum), Docker and process execution, file and environment access,
  and the serde copies of the library's types.
- `tests/` — tests of the library.
