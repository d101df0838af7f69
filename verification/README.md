# Sagiton

The backend of a Discord-like chat platform: accounts and sessions, guilds
with channels and permissions, direct and group threads, friendships,
messages with read markers, and a websocket gateway with presence and
multi-instance fan-out over Redis.

The rules of the platform live in a library whose behaviour is stated in
`requires`/`ensures` contracts and proved with Verus; a thin server around it
does the I/O.

## Layout

- `src/` — the verified library (`sagiton`)
  - `validation`, `permission`, `error`, `text` — input rules, permission
    bits and their laws, the error model, text helpers
  - `use_cases/` — each operation as a step function: given the answers to
    the repository calls made so far, it returns the next call or the result
  - `store/` — the transactional decisions of the Postgres stores (invite
    joins, direct thread creation and answers, friendship acceptance,
    channel permission resolution)
  - `hub`, `index` — the in-memory websocket hub and its subscription
    indexes, with a mathematical model and laws over it
  - `gateway`, `realtime`, `http` — websocket command decisions, fan-out
    routing, reconnect backoff, presence and rate-limit decisions, and the
    pieces of the HTTP handlers that compute
  - `crypto`, `platform` — password hashing, refresh tokens, access token
    claims, UUIDs, clock and randomness, each outside call behind a trusted
    wrapper with a stated contract
- `tests/` — tests of the library on concrete values
- `app/` — the server: axum routes and handlers, the websocket loop,
  Postgres repositories (sqlx), Redis (pub/sub, presence, counters), JWT
  signing, logging and metrics

## License

GPL-3.0.
