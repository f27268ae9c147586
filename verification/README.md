# http-client

An HTTP client whose decisions are verified with Verus: which requests it takes
on, what it adds to them, how it finds a connection for each, what it puts on
that connection, when it tries again, and when a connection goes back to the pool.

- `src/` is the library. It does no I/O. `Client::request` gives a
  `FutureResponse`, a state machine: `poll` takes in what happened (an `Event`)
  and tells what is to be done next (an `Action`).
  - `client`, `builder`: the client and its configuration.
  - `exchange`: one attempt to send a request, from the race between an idle and
    a new connection to the response.
  - `retry`: trying a request again when a connection gave it back.
  - `pool`, `connect`: pooled connections, and what a connector is given.
  - `request`, `headers`, `uri`, `error`, `duration`, `text`: what these work on.
  - `laws`: what holds of the client as a whole.
- `tests/` runs the library on concrete requests.
- `app/` runs it on futures, over a transport that opens and drives the
  connections.

URIs are parsed by the `http` crate, and kept as the text of their parts. Headers
are kept in its `HeaderMap`. What the proofs rest on there is stated at the
functions that call it, in `src/uri.rs` and `src/headers.rs`.
