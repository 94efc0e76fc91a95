# hyper_compat

Lets a service that speaks the `http` 0.2 types run behind hyper 1, and keeps a
TLS listener going while its configuration changes.

- `src/` decides: how header maps, requests and responses of one generation of
  the HTTP crates are rebuilt in the other, what the body adapters answer to a
  poll, what a call of the service adapter does next, and what the TLS listener
  does with a new acceptor or a failed connection. Verus proves each function
  against its contract. `fields.rs` says what a header map holds; the calls into
  `http` and `hyper` stand behind small wrappers in `headers.rs` and `message.rs`.
- `app/` does: it implements the traits of hyper, futures and tower, polls the
  bodies, calls the service, and accepts connections.
- `tests/` runs the library with the real crates.

With up to 6553 names a rebuilt header map never refuses to grow; above that it
may, and the conversion then fails. How many names a map takes at most is for the
HTTP crates to say: a test in `tests/headers.rs` fills one with 24576 names and
sees it refuse the next value.
