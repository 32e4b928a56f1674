# aether

A distributed executor for Python scripts: a broker keeps prioritised task
queues and hands tasks to workers that match their hardware requirements;
workers run them and report back; a command line client submits and
follows tasks over an HTTP API.

`src/` is the verified library. Each module states its behaviour in
`requires`/`ensures` contracts over mathematical models and is checked by
Verus:

- `capabilities`, `task`, `auth`, `params`, `http`: the data model.
- `maps`, `text`: insertion-ordered maps and the text handling the wire
  protocol needs (decimal numbers, trimming, prefixes).
- `storage`: the in-memory storage (three priority queues, result records,
  leases, worker registry, users); `storage_laws` states what dequeuing and
  the other operations promise together.
- `jrpc`: JSON-RPC error codes, method names and the `Content-Length`
  framing; `broker`: the broker's side of the protocol; `broker_laws`: what
  holds across registration, fetching, reports, shutdowns and submissions.
- `api`: the answers of the HTTP endpoints; a login checks the password
  against the bcrypt hash on file and issues a token the broker keeps, which
  the authorisation check then accepts until it expires.
- `worker`: the worker's queue, its reactions to the broker and what it
  reports after each run of a task.
- `commands`, `config`, `client`, `tui`, `widgets`, `error`: the client.
- `redis_keys`: the key layout of the Redis-backed storage.
- `external`, `clock`: the calls into uuid, bcrypt, base64 and std whose
  contracts are trusted.

`app/` is the program around it: argument parsing (clap), the axum and TCP
servers, the worker's processes and sockets, HTTP calls (reqwest), the
configuration file, the terminal UI (ratatui, crossterm) and the Redis
storage. `tests/` exercises the library with concrete scenarios.
