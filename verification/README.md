# enseada

Enseada is an artifact registry: an OCI/Docker distribution API for
container images and an OAuth 2.0 authorization server, with CouchDB as its
document store and a blob store for layers.

This crate holds the registry's rules as a library verified with Verus, and
a thin server around it.

- `src/` — the verified library:
  - `oauth/` — scopes, sessions, clients, codes and tokens; the validation
    of token requests as a state machine (`validation_step`) whose runs
    end with the outcome of the validation rules (`lemma_validation_run`);
    the trading of a validated request for tokens as a second machine
    (`issue_step`, `lemma_issue_run`); issuing codes and tokens; the stored
    forms of clients and codes.
  - `containers/`, `docker/` — image names, uploads and their chunks (kept
    in offset order, under distinct keys), the completion of an upload as
    a state machine (`completion_step`, `lemma_completion_step`),
    manifests, and what the handlers decide.
  - `http/`, `handlers/` — API errors and their answers, credentials read
    from the `Authorization` header, the subdomain guard, and the login to
    the authorization server as a state machine (`login_step`,
    `lemma_login_run`).
  - `couchdb/` — where requests to the store go and how its failures are
    read; the lines of the change feed.
  - `config.rs` — settings, their defaults and their checks.
  - `guid.rs`, `text.rs`, `links.rs`, `pattern.rs`, `clock.rs` — guids,
    string helpers, and the calls into `url`, `regex` and `chrono` (times are
    kept in nanoseconds since the epoch).
- `app/` — the server: reading the environment, logging, HTTP and the
  stores, driving the library.
- `tests/` — tests of the library.

Verify with `verus`; the outside crates are called only through the small
trusted wrappers whose contracts are documented next to them.
