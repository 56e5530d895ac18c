# iroh_http_server

The server side of HTTP/1.1 over iroh connections, as a verified library of
decisions.

- `src/` decides, on plain values, which connections and request streams are
  served, with which limits, and how a graceful shutdown drains and ends. Verus
  proves the contracts of its functions; only starting a clock, whose origin is
  the time of the call, has nothing to promise. `src/laws.rs` proves what holds
  through any sequence of calls: connection bounds are kept, all connections
  share one concurrency limit, no stream is counted after the stop, shutdown
  tells the truth and does not outlast its deadline.
- `src/bindings.rs` holds the calls into Tokio and Tower that the library makes
  itself, with what is taken for granted about each.
- `app/` is the asynchronous side: it keeps the library's state behind a lock,
  waits for what the library asks for, and performs the actions that come back.
- `tests/` runs the library on concrete values.

Unless set otherwise, a server takes 1024 connections, 8 of them from one peer,
and 1024 requests at a time. It waits 15 s for a request head, 30 s for progress
of a request body, 60 s for the next stream of an idle connection and 30 s for a
drain. Request bodies are not bounded and handlers are not timed.
