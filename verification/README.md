# actixutils

Middleware, extractors and stores for Actix-web services: JWT authentication,
cookie sessions, sliding-window rate limiting, idempotency keys, GET-response
caching, trusted-proxy client addresses, bitmask permissions, response-time
equalization, pagination, request ids and timeouts.

The decisions these make are a library verified with Verus (`src/`); the
framework glue that reads requests, calls stores and writes responses is an
ordinary Rust crate around it (`app/`).

## Layout

- `src/` — the verified library.
  - `claims` — `Identity` / `Authority` claims, their 500-second lifetime, and
    the permission bit tests.
  - `auth` — where a request's bearer token comes from and what the extractor
    answers; `signing` — the `Sign` / `Validate` traits.
  - `middleware/` — each middleware's settings and its per-request steps: a
    function from the state of a request and what just happened (the request
    arrived, the store answered, the handler answered) to the next state and
    the action to take. Laws about the steps (a cache hit never reaches the
    handler, a retried idempotency key receives the first response, a
    required session never serves a fresh one, ...) are proof functions
    beside them.
  - `net` — IP networks, trusted proxies and the client-address rule.
  - `ids` — UUIDv4 ids and their hyphenated text.
  - `cache_registry` — named shared caches; `store_keys` — namespaced keys
    for a shared key-value server; `text` — the string operations the rest
    uses, each with its contract.
- `tests/` — tests of the library on concrete values.
- `app/` — the `Transform` / `Service` / `FromRequest` impls, the `Store`
  trait with its `moka` and Redis backends, `HS256Signer`, and serde forms of
  the claim and response types.

Time in the library is in nanoseconds (`u128`); the app converts from
`Duration` and reads a monotonic clock.
