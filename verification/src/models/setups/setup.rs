use crate::models::interval::Interval;
use crate::models::strategy_orientation::StrategyOrientation;
use vstd::prelude::*;

verus! {

/// A trade opportunity found by a strategy on a candle of type `C`.
#[derive(Debug, Clone)]
pub struct Setup<C> {
    pub candle: C,
    pub orientation: StrategyOrientation,
    pub symbol: String,
    pub interval: Interval,
}

} // verus!
