# octane

Reinforcement-learning and live-trading building blocks.  The integer,
string and state-machine logic lives in `src/` and is specified and proved
with Verus; tensors, floating-point arithmetic, files, threads, async I/O and
the Python bridge live in `app/`, which calls the library for every decision
about indices, windows, schedules, names, requests and state.

## Layout

- `src/` — the verified library.
  - Buffers: `buffer_index` (ring cursor, rollout progress, minibatch plans),
    `nstep` (n-step windows), `hindsight` (episode archive and goal
    relabelling plans), `transition_cache` (LRU order of a cached store),
    `record` (fixed-width record codec), `recent` (newest-first windows),
    `tree_layout` (segment-tree numbering), `shapes` (tensor shape rules).
  - Environments: `space`, `wrappers` (time limit, episode counter, template
    assignment), `array_window`, `trading_window`, `gym`, `multiagent`.
  - Training support: `device`, `precision` (autocast rules, loss-scale
    schedule), `checkpoint` (file names, ranking, rotation), `distributed`
    (topology, worker roster, aggregation rounds).
  - Live trading: `live_types`, `exchanges` (rate limits, request
    signing), `sha256` (SHA-256 and HMAC-SHA256), `binance`, `bybit`,
    `api_requests`, `symbols`, `monitor` (latency, health and cooldown
    checks), `execution` (execution kinds and the bookkeeping of running
    and finished executions), `clock`, `text`.
- `app/` — the runtime: Candle tensors, distributions, classic-control and
  trading environments, replay buffers, memory-mapped storage, checkpoint
  files, exchange connectors, the live trading runtime and the Gym bridge.
- `tests/` — tests of the library.

## Live trading runtime

`app/live.rs` holds the execution engine (TWAP, VWAP, iceberg), the live
monitor and the paper-trading account.  Their fills, positions, prices and
alert thresholds are floating-point arithmetic driven by async timers, so
they live in `app/`; the bookkeeping of running and finished executions,
the health table and the latency, connection and cooldown checks they rely
on are the library's (`execution`, `monitor`, `symbols`).  They keep the
original's behaviour in compact form: one fill model (immediate) and one
slippage model (fixed basis points) for paper trading.
