# socks_server

A SOCKS 5 server whose decisions are verified with Verus.

- `src/` is the library. Its connections are state machines without I/O: they take an event, move
  on, and give the action to carry out next. The contracts say exactly what each step does, and the
  `lemma_` functions state what follows for whole conversations.
- `app/` runs the library on tokio.
- `tests/` runs the library on concrete conversations.
