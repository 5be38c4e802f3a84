# ck-quant-rust

The decision core of a low-latency futures trading engine, verified with
Verus, and the program that runs it.

- `src/` — the verified library:
  - `domain` — sides, order statuses, order intents and updates, engine events;
  - `ids` — UUID client ids and the clock (from `uuid` and `chrono`);
  - `text`, `ieee` — decimal/hex rendering and comparisons of `f64` bit patterns;
  - `config` — defaults, validation rules and credential redaction;
  - `strategy` — the sample EMA-crossover strategy's decisions;
  - `exchange` — the paper exchange's order book;
  - `binance` — request parameters, HMAC-SHA256 signing (`hmac`, `sha2`,
    `serde_urlencoded`), response handling and the cache of live orders;
  - `storage` — the split active/history upsert plan, its proved effect on
    the two tables, and the history database location;
  - `engine` — lane steps, event plans, supervision and latency judgement.
- `app/` — the command-line program: Tokio lanes, SQLite through `sqlx`, HTTP
  through `reqwest` and `axum`, CSV and JSON5 input, and the floating-point
  indicators and backtest.
- `tests/` — tests of the library on concrete values.
