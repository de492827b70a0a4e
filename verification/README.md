# aura_trade

Technical-analysis core of a crypto trading research workbench, written in
Verus: the rules and decisions are verified, the numeric and I/O work around
them is ordinary Rust.

## Layout

- `src/` — the verified library.
  - `text.rs`: string helpers (prefix/suffix tests, lexicographic order,
    decimal notation) with their specifications.
  - `config.rs`: runtime configuration, defaults and overrides.
  - `data/`: timeframes and exchange codes, symbol routing, cache policy and
    file names, request sizes and paging cursors, the selection of a fetched
    candle window, and the sorted USDT symbol lists of the exchanges.
  - `engine/`: candle and chart-pattern taxonomies, moving-average signal
    vocabularies, the decision rules of the backtests and playbooks, position
    limits, the staged exit on topping signals, and the event bookkeeping of
    the detectors.
- `tests/` — tests of the library.
- `app/` — the unverified side: exchange clients (HTTP and JSON), the file
  cache, configuration from the environment, and the floating-point
  indicators, detectors and backtests that call into the library.

Candle swing-point prices are integer ticks in the library; the floating-point
prices of candles live in `app/`.
