# revolt_core

The verified core of a chat backend, written in Verus.

- `src/errors.rs` — the kinds of failure (`ErrorType`), errors with the place
  that raised them (`Error`, `CodeLocation`), the text by which an error reads,
  and the folding of absent values, foreign failures and failed database
  queries into internal and database errors (`ToRevoltError`, `query_outcome`).
- `src/text.rs` — decimal rendering of numbers, with its round-trip lemma.
- `src/database.rs` — the predicates that leave unset flags out of serialised
  models.
- `src/server.rs` — the REST server's settings and the routing of
  authentication events to everyone or to one user.
- `src/fetch_user.rs` — the steps of fetching a user's profile, as a state
  machine that the server drives.
- `app/` — the server itself: configuration, database, broker and HTTP wiring,
  and the wire form of errors with serde derives.
- `tests/` — tests of the library on concrete values.
