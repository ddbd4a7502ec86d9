# axon

Building blocks of a trading back-tester, written in Verus: each function of
the library carries a contract, and Verus proves the code against it.

Layout:

- `src/` — the verified library:
  - `types`, `decimal`, `decimal_ord`, `text`: fixed-point prices and
    quantities, decimals backed by `rust_decimal`, decimal text output;
  - `market`: sides, ticks, trades, OHLC bars built from ticks, L2 order books;
  - `fee`: fee kinds, volume-tiered fee tables with discounts, the tiered fee
    model;
  - `latency`: delays, network paths, constant/uniform/queue latency models;
  - `event`: event kinds, the event builder, collectors and the router;
  - `compliance`: the hash-chained audit log and report formats;
  - `backtest`: the matching-engine types and order-input parsing;
  - `error`: the error type with its context chain and retry decisions.
- `tests/` — tests of the library on concrete values.
- `app/` — what the library leaves out: floating-point impact and latency
  models, reports, file storage, configuration and logging.
