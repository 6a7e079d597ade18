# bdrpc

The decision logic of a bi-directional RPC framework, written in Verus and
proved against its contracts.

- `src/` is the verified library:
  - `channel/`: channel identifiers, channel errors, correlation counters,
    the table of requests in flight, the table of a connection's channels,
    the feature check before a send, and the system protocol.
  - `endpoint/`: protocol directions, handshake offers and their
    negotiation, endpoint settings and errors, the protocol registry, the
    endpoint builder, the channel negotiator, and the decisions of a
    connection's life (frame lengths, hello checks, system messages,
    which failures are retried).
  - `backpressure/`, `reconnection/`: flow-control and reconnection
    strategies (bounded queue, circuit breaker).
  - `observability/`: correlation identifiers, error counters and
    observers, log records, health checks, transport and channel metrics.
  - `error.rs`, `text.rs`, `time.rs`: framework errors, decimal text, and
    the durations and instants of `std::time`.
- `tests/` runs the library on concrete values.
- `app/` is the runtime around it: serde wire types, framed handshake I/O
  over tokio streams, task-local correlation, async access to the shared
  tables, the reconnecting connect loop, tracing output, and the
  floating-point views of metrics and health.
