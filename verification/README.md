# provenian

The problem service of a proof-problem site: its domain model, token
authorization, the mapping of problems to database rows, and the wiring of its
services, written in Verus with contracts and proofs.

- `src/` is the verified library:
  - `model` — roles, users, languages and problems; new problems get a ULID and
    the current time; languages are written as their JSON text.
  - `error` — service errors and the HTTP status each one answers with.
  - `jwt_handler` — RS256 token verification against a JSON web key set. The
    contracts tie an accepted user to the token: the signature must verify
    under the key that the header names (with an RS256 header), the user is
    what the caller's claims reader reads from the verified payload, and the
    registered claims must pass biscuit's time checks at the time of the
    check (`verify_at` takes that time; `verify` reads the clock). Signature
    checking and the time checks themselves are `biscuit`'s, behind trusted
    wrappers.
  - `problem_repo` — problems as rows of the problem, tag and attachment
    tables, and back (language texts read with the caller's reader).
  - `service`, `initializer`, `conn_pool` — the services and how the
    application is assembled from its configuration, including the check
    that the database URL is one that mysql_async reads.
  - `web` — the `Authorization` header, role checks and the echo endpoint.
  - `wrapper` — the route table of the hyper-based server (a `path_tree`
    behind trusted wrappers) that decides where a request goes, and its
    error type.
- `app/` is the program around it: actix and hyper servers, MySQL access
  through debil, fetching the key set, and the serde copies of the model,
  which also give the readers of token claims and language texts.
- `tests/` runs the library on concrete values.
