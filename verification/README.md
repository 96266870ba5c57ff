# hookly

The core of a multi-tenant webhook platform, written in Verus: the rules and
decisions of its API, each with a contract that Verus proves.

- `src/` — the verified library.
  - `common/` — per-tenant AES-256-GCM envelopes, identifiers, idempotency
    keys and locks, access-log lines, pagination, request validators, and the
    trusted wrappers around `base64`, `sha2`, `hmac`, `aes-gcm`, `nanoid`,
    `uuid`, `jsonschema` and a few std string functions (`common/codec.rs`).
  - `error.rs` — the error type, its HTTP status, public code and message, and
    how database and validator failures map onto it.
  - `features/` — one module per resource (API keys, applications, role and
    permission assignments, delivery jobs, endpoints, environments, event
    types, events). Multi-step operations that talk to the store or Redis
    (authentication, issuing, revealing, changing and deleting API keys,
    publishing one event or a bulk of them, assigning roles and permissions)
    are state machines: the caller performs each action
    and feeds back its result, and the contracts say what every step does.
- `tests/` — tests of the library on concrete values.
- `app/` — the HTTP service around the library (axum routes, sqlx queries,
  Redis, configuration). It performs the actions that the library's state
  machines hand it and feeds their results back. What it chooses itself is
  what lies outside the library: the SQL of each query, the Redis stream
  names, and the check of a JWT's signature and expiry with
  `jsonwebtoken::decode` (with its validation options), on a key that the
  library builds from the stored PEM.
