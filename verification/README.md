# justaskrepo

The backend of JustAskRepo (chat with a GitHub repository), split in two:

- `src/` — a Verus-verified library holding every rule the backend decides:
  session lifetimes (`session`, over the plain time values of `clock`),
  how sessions are laid out in Valkey and revoked (`session_store`), the
  sign-in rate limit (`rate_limiter`), which address a request is held
  against (`client_ip`), configuration parsing and consistency (`config`, and the whole
  configuration assembled from the environment in `app_config`),
  the OAuth handshake's decisions (`oauth`) and the order of a sign-in's
  steps (`login`), the session cookie and other
  request-facing rules (`http`), tokens (`token`), the errors and their
  HTTP statuses (`error`), and the unique subjects integration probes use
  against a shared Valkey (`probe`).
- `app/` — the Axum server around it: environment, Valkey, Postgres and
  GitHub I/O, the event bus tasks, and `main`.

`tests/` exercises the library with concrete values.

## Configuration beyond the core variables

Besides the database, Valkey, Qdrant, Gemini, GitHub App and session
variables, the server reads:

- `TRUSTED_PROXY_HOPS` (default `0`): how many proxies we control sit in
  front of the server. With `0` the socket peer is the client and
  `X-Forwarded-For` is ignored; with `n`, the entry `n` hops back from the
  peer is.
- `AUTH_RATE_LIMIT_MAX_REQUESTS` (default `20`) and
  `AUTH_RATE_LIMIT_WINDOW_SECS` (default `60`): the fixed-window budget of
  the sign-in endpoints, per client address (per /64 for IPv6). A refusal
  is answered with `429 Too Many Requests` and a `Retry-After` header.

`TRUSTED_PROXY_HOPS` is read with the server settings, first; the budget
after the session settings.

