# rust_bot

A candle-based trading bot whose bookkeeping is verified with Verus.

`src/` is the verified library:

- `models::timestamp`: UTC timestamps as seconds and nanoseconds, and the
  time between two of them, leap seconds included.
- `models::interval`, `ma_type`, `strategy_orientation`: the basic enums, the
  interval lengths and tolerances, and the test whether one candle follows
  another, to the nanosecond.
- `models::timeseries`, `timeseries_builder`: a series of candles of any type
  with their timestamps and its set of populated indicators (an
  `indexmap::IndexSet`), adding candles (appended, every recorded indicator
  computed on the new one by a function the caller hands in, trimmed to the
  maximum length) and indicators (computed on every candle once, then
  recorded), the latest-candles answer and the decision taken when a candle arrives from the websocket,
  judged against the series' own last candle.
- `models::message_payloads`, `setups`, `trade`, `trade_builder`, `traits`:
  payloads, setup, setup finder and trade building, the setup finder's state and
  decisions (at most one trade of its own at a time), and the decisions of
  live trades.
- `indicators::indicator_args`, `indicator_type`: indicator arguments, types,
  families, default arguments and the arguments each type populates with.
- `indicators::windows`: for every indicator, the candles each value is
  computed over, whether it is computed from scratch or rolled forward, and
  where it is stored; with the proofs that populating only the last candle
  reads the same candles as populating the whole series does for that
  candle. For EMA and RSI this holds once the previous candle holds a value:
  at the first value of a series, the last-candle step seeds from the
  candles before it while whole-series population seeds from the start.

`app/` holds what the library cannot verify: floating-point candles and
indicator arithmetic (driven by the library's windows), the actix actors,
e-mail notifications and serde records.
