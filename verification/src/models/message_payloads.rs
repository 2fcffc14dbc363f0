//! Messages exchanged between the parts of the bot that carry no candle.
use crate::models::interval::Interval;
use vstd::prelude::*;

verus! {

/// Request for the candles of `symbol` between the timestamps `from` and
/// `to` (milliseconds since the epoch), sent when a gap is detected in a
/// series.
#[derive(Debug, Clone, PartialEq, Eq)]
pub struct FillHistoricalCandlesPayload {
    pub from: i64,
    pub to: i64,
    pub symbol: String,
    pub interval: Interval,
}

/// Liveness check of a trade.
#[derive(Debug, Clone, Copy, PartialEq, Eq, Structural)]
pub struct PingPayload;

/// Request for the `n` most recent candles of a series.
#[derive(Debug, Clone, Copy, PartialEq, Eq, Structural)]
pub struct RequestLatestCandlesPayload {
    pub n: usize,
}

/// Order to stop a trade.
#[derive(Debug, Clone, Copy, PartialEq, Eq, Structural)]
pub struct StopPayload;

/// Notice that a condition was triggered.
#[derive(Debug, Clone, Copy, PartialEq, Eq, Structural)]
pub struct TriggeredPayload;

} // verus!

verus! {

/// The most recent candles of a series, answering a
/// `RequestLatestCandlesPayload`.
#[derive(Debug, Clone)]
pub struct LatestCandleResponse<C> {
    pub symbol: String,
    pub interval: Interval,
    pub candles: Vec<C>,
}

impl<C> LatestCandleResponse<C> {
    pub fn new(symbol: String, interval: Interval, candles: Vec<C>) -> (r: Self)
        ensures
            r.symbol == symbol,
            r.interval == interval,
            r.candles == candles,
    {
        LatestCandleResponse { symbol, interval, candles }
    }
}

} // verus!
