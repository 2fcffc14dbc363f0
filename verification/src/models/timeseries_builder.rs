use crate::indicators::indicator_type::IndicatorType;
use crate::models::interval::Interval;
use crate::models::timeseries::{indicator_set_items, TimeSeries};
use crate::models::timestamp::Timestamp;
use indexmap::IndexSet;
use vstd::prelude::*;

verus! {

/// Default capacity of a series built without `max_length`.
pub const DEFAULT_MAX_LENGTH: usize = 800;

/// Step-by-step construction of a `TimeSeries`.
#[derive(Debug)]
pub struct TimeSeriesBuilder<C> {
    pub symbol: Option<String>,
    pub interval: Option<Interval>,
    pub max_length: usize,
    pub candles: Vec<C>,
    /// The timestamp of each candle, in the same order.
    pub stamps: Vec<Timestamp>,
    pub indicators: IndexSet<IndicatorType>,
    pub validate_candles_on_add: bool,
}

impl<C> TimeSeriesBuilder<C> {
    /// A builder with no symbol or interval, room for `DEFAULT_MAX_LENGTH`
    /// candles, no candles or indicators, and arrival validation on.
    pub fn new() -> (b: Self)
        ensures
            b.symbol is None,
            b.interval is None,
            b.max_length == DEFAULT_MAX_LENGTH,
            b.candles@ == Seq::<C>::empty(),
            b.stamps@ == Seq::<Timestamp>::empty(),
            indicator_set_items(b.indicators) == Seq::<IndicatorType>::empty(),
            b.validate_candles_on_add,
    {
        TimeSeriesBuilder {
            symbol: None,
            interval: None,
            max_length: DEFAULT_MAX_LENGTH,
            candles: Vec::new(),
            stamps: Vec::new(),
            indicators: crate::models::timeseries::empty_indicator_set(),
            validate_candles_on_add: true,
        }
    }

    pub fn symbol(self, symbol: String) -> (b: Self)
        ensures
            b.symbol == Some(symbol),
            b.interval == self.interval,
            b.max_length == self.max_length,
            b.candles == self.candles,
            b.stamps == self.stamps,
            b.indicators == self.indicators,
            b.validate_candles_on_add == self.validate_candles_on_add,
    {
        let mut b = self;
        b.symbol = Some(symbol);
        b
    }

    pub fn interval(self, interval: Interval) -> (b: Self)
        ensures
            b.interval == Some(interval),
            b.symbol == self.symbol,
            b.max_length == self.max_length,
            b.candles == self.candles,
            b.stamps == self.stamps,
            b.indicators == self.indicators,
            b.validate_candles_on_add == self.validate_candles_on_add,
    {
        let mut b = self;
        b.interval = Some(interval);
        b
    }

    pub fn max_length(self, max_length: usize) -> (b: Self)
        ensures
            b.max_length == max_length,
            b.symbol == self.symbol,
            b.interval == self.interval,
            b.candles == self.candles,
            b.stamps == self.stamps,
            b.indicators == self.indicators,
            b.validate_candles_on_add == self.validate_candles_on_add,
    {
        let mut b = self;
        b.max_length = max_length;
        b
    }

    /// The candles to start from, stamped `stamps`.
    pub fn candles(self, candles: Vec<C>, stamps: Vec<Timestamp>) -> (b: Self)
        ensures
            b.candles == candles,
            b.stamps == stamps,
            b.symbol == self.symbol,
            b.interval == self.interval,
            b.max_length == self.max_length,
            b.indicators == self.indicators,
            b.validate_candles_on_add == self.validate_candles_on_add,
    {
        let mut b = self;
        b.candles = candles;
        b.stamps = stamps;
        b
    }

    /// Records an indicator type to be populated; one already recorded is
    /// not recorded twice.
    pub fn add_indicator(self, indicator: IndicatorType) -> (b: Self)
        ensures
            indicator_set_items(b.indicators) == (if indicator_set_items(self.indicators).contains(
                indicator,
            ) {
                indicator_set_items(self.indicators)
            } else {
                indicator_set_items(self.indicators).push(indicator)
            }),
            b.symbol == self.symbol,
            b.interval == self.interval,
            b.max_length == self.max_length,
            b.candles == self.candles,
            b.stamps == self.stamps,
            b.validate_candles_on_add == self.validate_candles_on_add,
    {
        let mut b = self;
        crate::models::timeseries::insert_into_indicator_set(&mut b.indicators, indicator);
        b
    }

    pub fn validate_candles_on_add(self, validate: bool) -> (b: Self)
        ensures
            b.validate_candles_on_add == validate,
            b.symbol == self.symbol,
            b.interval == self.interval,
            b.max_length == self.max_length,
            b.candles == self.candles,
            b.stamps == self.stamps,
            b.indicators == self.indicators,
    {
        let mut b = self;
        b.validate_candles_on_add = validate;
        b
    }

    /// The series with the builder's settings; symbol and interval are
    /// required.
    pub fn build(self) -> (ts: TimeSeries<C>)
        requires
            self.symbol is Some,
            self.interval is Some,
        ensures
            ts.symbol == self.symbol->Some_0,
            ts.interval == self.interval->Some_0,
            ts.max_length == self.max_length,
            ts.candles == self.candles,
            ts.stamps == self.stamps,
            ts.indicators == self.indicators,
            ts.validate_candles_on_add == self.validate_candles_on_add,
    {
        let symbol = self.symbol.unwrap();
        let interval = self.interval.unwrap();
        TimeSeries {
            symbol,
            interval,
            max_length: self.max_length,
            candles: self.candles,
            stamps: self.stamps,
            indicators: self.indicators,
            validate_candles_on_add: self.validate_candles_on_add,
        }
    }
}

impl<C> TimeSeries<C> {
    /// An empty daily series of the symbol `BTCUSDT`.
    pub fn dummy() -> (ts: Self)
        ensures
            ts.symbol@ == "BTCUSDT"@,
            ts.interval == Interval::Day1,
            ts.max_length == DEFAULT_MAX_LENGTH,
            ts.candles@ == Seq::<C>::empty(),
            ts.stamps@ == Seq::<Timestamp>::empty(),
            indicator_set_items(ts.indicators) == Seq::<IndicatorType>::empty(),
            ts.validate_candles_on_add,
    {
        TimeSeriesBuilder::new().symbol("BTCUSDT".to_owned()).interval(Interval::Day1).build()
    }
}

} // verus!
