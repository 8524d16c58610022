# rustproxy

Small TCP servers — a thread-per-connection echo server, an asynchronous
line echo server with a changeable size limit, an echo server with counters,
a health endpoint and graceful shutdown, and a pooling TCP proxy — whose
protocol logic is a library verified with Verus.

* `src/` — the verified library: line classification and replies
  (`echo`, `basic_echo`, `raw_echo`), the health endpoint's routing and
  response framing (`health`), counters (`metrics`), settings (`config`,
  `proxy_config`), the idle-connection pool (`pool`), upstream connection
  checks (`upstream`), relay bookkeeping (`relay`), and the text routines
  they share (`text`).
* `app/` — the programs: sockets, tasks, timers, signals, logging and JSON /
  YAML (de)serialisation around the library. The first argument picks one of
  `sync-echo`, `async-echo`, `proxy`; without one the echo server with its
  health endpoint runs.
* `tests/` — tests of the library on concrete values.
