//! A live trade, and the decisions it takes on each new candle.
use crate::indicators::windows::Span;
use crate::models::message_payloads::RequestLatestCandlesPayload;
use crate::models::setups::setup::Setup;
use vstd::prelude::*;

verus! {

/// A trade opened on a setup found on candles of type `C`, for `quantity`
/// worth `dollar_value` (amounts of type `Q`), through a data source of type
/// `D`, resolved by a strategy of type `R`, and following the time series
/// that `timeseries` (of type `A`) designates.
#[derive(Debug)]
pub struct Trade<C, Q, D, R, A> {
    pub setup: Setup<C>,
    pub quantity: Q,
    pub dollar_value: Q,
    pub source: D,
    pub notifications_enabled: bool,
    pub trading_enabled: bool,
    pub resolution_strategy: R,
    pub timeseries: A,
}

/// The request a trade sends for candles when a candle is added: as many as
/// the larger of what its take-profit and its stop-loss checks need.
pub fn resolution_request(take_profit_candles: usize, stop_loss_candles: usize) -> (p:
    RequestLatestCandlesPayload)
    ensures
        p.n == if take_profit_candles >= stop_loss_candles {
            take_profit_candles
        } else {
            stop_loss_candles
        },
        p.n >= take_profit_candles,
        p.n >= stop_loss_candles,
{
    let n = if take_profit_candles >= stop_loss_candles {
        take_profit_candles
    } else {
        stop_loss_candles
    };
    RequestLatestCandlesPayload { n }
}

/// Among `n` received candles, the last `take_profit_candles` that the
/// take-profit check reads and the last `stop_loss_candles` that the
/// stop-loss check reads.
pub fn resolution_windows(n: usize, take_profit_candles: usize, stop_loss_candles: usize) -> (r: (
    Span,
    Span,
))
    requires
        take_profit_candles <= n,
        stop_loss_candles <= n,
    ensures
        r.0 == (Span { start: (n - take_profit_candles) as usize, end: n }),
        r.1 == (Span { start: (n - stop_loss_candles) as usize, end: n }),
{
    (Span { start: n - take_profit_candles, end: n }, Span { start: n - stop_loss_candles, end: n })
}

/// A trade is exited, and stopped, as soon as its take profit or its stop
/// loss is reached.
pub fn should_exit(take_profit_reached: bool, stop_loss_reached: bool) -> (exit: bool)
    ensures
        exit == (take_profit_reached || stop_loss_reached),
{
    take_profit_reached || stop_loss_reached
}

} // verus!
