# network_tool

A network diagnostic tool (ICMP ping, DNS resolution, TCP connect and HTTP
time-to-first-byte checks, shown on the command line, on a terminal dashboard
or through a JSON API) whose decision logic is a library verified with Verus.

## Layout

- `src/` — the verified library
  - `dns_cache.rs` — DNS answer cache with a time to live per record and a
    bound on its size (expired records are dropped first, then the record
    that expires first); its laws (a lookup gives back what was stored until
    it expires, the bound is kept, eviction takes the earliest record)
  - `icmp.rs` — the ping run as a state machine: which probe next, pauses and
    timeouts, and how replies add up to statistics
  - `retry.rs` — retry schedule with exponential backoff
  - `dns.rs` — what a resolution reports, and the resolver's use of the
    cache (answer from a live record, else query and store with the TTL)
  - `tcp.rs`, `http.rs` — what each probe reports; request URLs, dial
    addresses, HTTP status lines
  - `web_ui.rs` — query defaults, health classification, API responses
  - `report.rs` — layout of the dashboard and console reports, the history of
    rounds, the quit key and the run-time limit
  - `text.rs`, `models.rs` — decimal rendering, prefixes, joining; result types
- `app/` — the program: probes doing network I/O, the terminal dashboard, the
  HTTP server, argument parsing and the rendering of report lines (including
  the floating-point loss share and mean latency)
- `tests/` — tests of the library on concrete values
