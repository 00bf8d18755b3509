# bliinks-idp

Identity provider and account service for the bliinks network: sign-in
with CAPTCHA, registration awaiting approval, password resets by link,
an admin panel, OAuth 2.0 (authorization code flow with refresh-token
rotation) and a notification inbox that applications write to.

## Layout

- `src/` — the verified library (Verus). The service's decisions are
  functions with `requires`/`ensures` contracts: scopes, tokens and
  client credentials (`oauth/`), sessions and cookies (`session.rs`),
  roles and permissions (`rbac.rs`), the request handlers' decisions
  (`routes/`), request guards (`middleware.rs`), and the legacy account
  import (`legacy.rs`). Calls into outside crates (hashing, Argon2,
  Base64, UUIDs, the clock, randomness) go through small trusted wrappers
  whose contracts say what the crates document.
- `app/` — the server around it: axum routing, PostgreSQL queries with
  sqlx (the rules that live in SQL — single-use codes and reset links,
  token revocation, notification expiry and idempotency — are enforced
  there, not in `src/`), Tera templates, rate limits, and the `seed-rbac` and
  `migrate-legacy` commands.
- `tests/` — tests of the library on concrete values.

## Configuration

`config.toml` (overridable with `APP_` environment variables):

```toml
[server]
host = "127.0.0.1"
port = 3000

[general]
title = "example"
dev = true

[database]
url = "postgres://localhost/bliinks"
```
