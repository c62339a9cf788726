# omnipaxos_clock

A verified core for a clock-assisted OmniPaxos key-value service, written in Verus.

- `src/` is the verified library. Times are `u64` nanoseconds since the UNIX epoch.
  - `clock`: the replica clock. It ticks one millisecond plus or minus a drift, keeps a
    sorted deadline queue, wakes waiters once their deadline has passed, and asks to
    resynchronize every `sync_freq` ticks.
  - `buffers`: the early buffer that holds requests until their deadlines, releasing
    the earliest deadline first and queueing each released request's deadline in the
    clock.
  - `sequence_paxos`: the role, phase, promise and outbox decisions of a replica,
    its proposals and their acknowledgements, and the plan for syncing another log.
  - `messages`, `util`: protocol messages, ballots and cluster configuration.
  - `proxy_node`: the proxy's acknowledgement database and its release rule.
  - `kv_store`, `kv_server`, `kv_configs`, `kv_clock`: the key-value database,
    the server's answers and metrics, its configuration, and the server clock.
- `app/` is the tokio runtime around the library: the clock and buffer tasks, loading
  configuration files, and the proxy's network loop.
- `tests/` runs the library on concrete values.
