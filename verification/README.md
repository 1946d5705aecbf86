# axum_api_template

The core of a small HTTP API service built on Axum.

- `src/` is the library, with its specifications and proofs: runtime
  environments and the configuration sources they select, the API error
  type with its status codes, messages and display texts, the JSON response
  envelopes, the listen address, request identifiers (random version 4
  UUIDs), the clock and the health check.
- `app/` is the server around it: reading files and environment variables,
  logging, the Axum router, serialization and the process's `main`.
- `tests/` exercises the library on concrete values.
