//! Step-by-step construction of a `Trade`, which fails on the first field
//! that a trade needs and that was not set.
use crate::models::setups::setup::Setup;
use crate::models::strategy_orientation::StrategyOrientation;
use crate::models::trade::Trade;
use vstd::prelude::*;

verus! {

/// A field that building a trade requires and that was not set.
#[derive(Debug, Clone, Copy, PartialEq, Eq, Structural)]
pub enum TradeBuildError {
    MissingSetup,
    MissingQuantity,
    MissingDollarValue,
    MissingSource,
    MissingResolutionStrategy,
    MissingTimeSeries,
}

/// The message each build error reports.
pub open spec fn trade_build_error_message(e: TradeBuildError) -> Seq<char> {
    match e {
        TradeBuildError::MissingSetup => "Setup is required to build Trade."@,
        TradeBuildError::MissingQuantity => "Quantity is required to build Trade."@,
        TradeBuildError::MissingDollarValue => "Dollar value is required to build Trade."@,
        TradeBuildError::MissingSource => "DataSource is required to build Trade."@,
        TradeBuildError::MissingResolutionStrategy => "Resolution strategy is required to build Trade."@,
        TradeBuildError::MissingTimeSeries => "TimeSeries is required to build Trade."@,
    }
}

impl TradeBuildError {
    pub fn message(&self) -> (s: &'static str)
        ensures
            s@ == trade_build_error_message(*self),
    {
        match self {
            TradeBuildError::MissingSetup => "Setup is required to build Trade.",
            TradeBuildError::MissingQuantity => "Quantity is required to build Trade.",
            TradeBuildError::MissingDollarValue => "Dollar value is required to build Trade.",
            TradeBuildError::MissingSource => "DataSource is required to build Trade.",
            TradeBuildError::MissingResolutionStrategy => "Resolution strategy is required to build Trade.",
            TradeBuildError::MissingTimeSeries => "TimeSeries is required to build Trade.",
        }
    }
}

/// Step-by-step construction of a `Trade` on a setup found on candles of
/// type `C`, with amounts of type `Q`, a data source of type `D`, a
/// resolution strategy of type `R` and a handle of type `A` on the time
/// series the trade follows.
#[derive(Debug, Clone)]
pub struct TradeBuilder<C, Q, D, R, A> {
    pub setup: Option<Setup<C>>,
    pub symbol: Option<String>,
    pub quantity: Option<Q>,
    pub dollar_value: Option<Q>,
    pub source: Option<D>,
    pub notifications_enabled: bool,
    pub trading_enabled: bool,
    pub resolution_strategy: Option<R>,
    pub orientation: Option<StrategyOrientation>,
    pub timeseries_addr: Option<A>,
}

impl<C: Clone, Q: Clone, D: Clone, R: Clone, A: Clone> TradeBuilder<C, Q, D, R, A> {
    /// The error building fails with: the first missing field, in the order
    /// setup, quantity, dollar value, source, resolution strategy, time
    /// series.
    pub open spec fn first_missing(self) -> Option<TradeBuildError> {
        if self.setup is None {
            Some(TradeBuildError::MissingSetup)
        } else if self.quantity is None {
            Some(TradeBuildError::MissingQuantity)
        } else if self.dollar_value is None {
            Some(TradeBuildError::MissingDollarValue)
        } else if self.source is None {
            Some(TradeBuildError::MissingSource)
        } else if self.resolution_strategy is None {
            Some(TradeBuildError::MissingResolutionStrategy)
        } else if self.timeseries_addr is None {
            Some(TradeBuildError::MissingTimeSeries)
        } else {
            None
        }
    }

    /// A builder with no field set and notifications and trading off.
    pub fn new() -> (b: Self)
        ensures
            b.setup is None,
            b.symbol is None,
            b.quantity is None,
            b.dollar_value is None,
            b.source is None,
            !b.notifications_enabled,
            !b.trading_enabled,
            b.resolution_strategy is None,
            b.orientation is None,
            b.timeseries_addr is None,
    {
        TradeBuilder {
            setup: None,
            symbol: None,
            quantity: None,
            dollar_value: None,
            source: None,
            notifications_enabled: false,
            trading_enabled: false,
            resolution_strategy: None,
            orientation: None,
            timeseries_addr: None,
        }
    }

    pub fn symbol(self, symbol: String) -> (b: Self)
        ensures
            b.symbol == Some(symbol),
            b.setup == self.setup,
            b.quantity == self.quantity,
            b.dollar_value == self.dollar_value,
            b.source == self.source,
            b.notifications_enabled == self.notifications_enabled,
            b.trading_enabled == self.trading_enabled,
            b.resolution_strategy == self.resolution_strategy,
            b.orientation == self.orientation,
            b.timeseries_addr == self.timeseries_addr,
    {
        let mut b = self;
        b.symbol = Some(symbol);
        b
    }

    pub fn quantity(self, quantity: Q) -> (b: Self)
        ensures
            b.quantity == Some(quantity),
            b.setup == self.setup,
            b.symbol == self.symbol,
            b.dollar_value == self.dollar_value,
            b.source == self.source,
            b.notifications_enabled == self.notifications_enabled,
            b.trading_enabled == self.trading_enabled,
            b.resolution_strategy == self.resolution_strategy,
            b.orientation == self.orientation,
            b.timeseries_addr == self.timeseries_addr,
    {
        let mut b = self;
        b.quantity = Some(quantity);
        b
    }

    pub fn dollar_value(self, dollar_value: Q) -> (b: Self)
        ensures
            b.dollar_value == Some(dollar_value),
            b.setup == self.setup,
            b.symbol == self.symbol,
            b.quantity == self.quantity,
            b.source == self.source,
            b.notifications_enabled == self.notifications_enabled,
            b.trading_enabled == self.trading_enabled,
            b.resolution_strategy == self.resolution_strategy,
            b.orientation == self.orientation,
            b.timeseries_addr == self.timeseries_addr,
    {
        let mut b = self;
        b.dollar_value = Some(dollar_value);
        b
    }

    pub fn source(self, source: D) -> (b: Self)
        ensures
            b.source == Some(source),
            b.setup == self.setup,
            b.symbol == self.symbol,
            b.quantity == self.quantity,
            b.dollar_value == self.dollar_value,
            b.notifications_enabled == self.notifications_enabled,
            b.trading_enabled == self.trading_enabled,
            b.resolution_strategy == self.resolution_strategy,
            b.orientation == self.orientation,
            b.timeseries_addr == self.timeseries_addr,
    {
        let mut b = self;
        b.source = Some(source);
        b
    }

    pub fn notifications_enabled(self, notifications_enabled: bool) -> (b: Self)
        ensures
            b.notifications_enabled == notifications_enabled,
            b.setup == self.setup,
            b.symbol == self.symbol,
            b.quantity == self.quantity,
            b.dollar_value == self.dollar_value,
            b.source == self.source,
            b.trading_enabled == self.trading_enabled,
            b.resolution_strategy == self.resolution_strategy,
            b.orientation == self.orientation,
            b.timeseries_addr == self.timeseries_addr,
    {
        let mut b = self;
        b.notifications_enabled = notifications_enabled;
        b
    }

    pub fn trading_enabled(self, trading_enabled: bool) -> (b: Self)
        ensures
            b.trading_enabled == trading_enabled,
            b.setup == self.setup,
            b.symbol == self.symbol,
            b.quantity == self.quantity,
            b.dollar_value == self.dollar_value,
            b.source == self.source,
            b.notifications_enabled == self.notifications_enabled,
            b.resolution_strategy == self.resolution_strategy,
            b.orientation == self.orientation,
            b.timeseries_addr == self.timeseries_addr,
    {
        let mut b = self;
        b.trading_enabled = trading_enabled;
        b
    }

    pub fn resolution_strategy(self, resolution_strategy: R) -> (b: Self)
        ensures
            b.resolution_strategy == Some(resolution_strategy),
            b.setup == self.setup,
            b.symbol == self.symbol,
            b.quantity == self.quantity,
            b.dollar_value == self.dollar_value,
            b.source == self.source,
            b.notifications_enabled == self.notifications_enabled,
            b.trading_enabled == self.trading_enabled,
            b.orientation == self.orientation,
            b.timeseries_addr == self.timeseries_addr,
    {
        let mut b = self;
        b.resolution_strategy = Some(resolution_strategy);
        b
    }

    pub fn orientation(self, orientation: StrategyOrientation) -> (b: Self)
        ensures
            b.orientation == Some(orientation),
            b.setup == self.setup,
            b.symbol == self.symbol,
            b.quantity == self.quantity,
            b.dollar_value == self.dollar_value,
            b.source == self.source,
            b.notifications_enabled == self.notifications_enabled,
            b.trading_enabled == self.trading_enabled,
            b.resolution_strategy == self.resolution_strategy,
            b.timeseries_addr == self.timeseries_addr,
    {
        let mut b = self;
        b.orientation = Some(orientation);
        b
    }

    pub fn timeseries_addr(self, timeseries_addr: A) -> (b: Self)
        ensures
            b.timeseries_addr == Some(timeseries_addr),
            b.setup == self.setup,
            b.symbol == self.symbol,
            b.quantity == self.quantity,
            b.dollar_value == self.dollar_value,
            b.source == self.source,
            b.notifications_enabled == self.notifications_enabled,
            b.trading_enabled == self.trading_enabled,
            b.resolution_strategy == self.resolution_strategy,
            b.orientation == self.orientation,
    {
        let mut b = self;
        b.timeseries_addr = Some(timeseries_addr);
        b
    }

    /// The trade made of the builder's fields, or the first missing field.
    pub fn build(&self) -> (r: Result<Trade<C, Q, D, R, A>, TradeBuildError>)
        ensures
            self.first_missing() matches Some(e) ==> r == Err::<Trade<C, Q, D, R, A>, TradeBuildError>(
                e,
            ),
            self.first_missing() is None ==> (r matches Ok(trade) && cloned::<Setup<C>>(
                self.setup->Some_0,
                trade.setup,
            ) && cloned::<Q>(self.quantity->Some_0, trade.quantity) && cloned::<Q>(
                self.dollar_value->Some_0,
                trade.dollar_value,
            ) && cloned::<D>(self.source->Some_0, trade.source) && trade.notifications_enabled
                == self.notifications_enabled && trade.trading_enabled == self.trading_enabled
                && cloned::<R>(self.resolution_strategy->Some_0, trade.resolution_strategy)
                && cloned::<A>(self.timeseries_addr->Some_0, trade.timeseries)),
    {
        let setup = match &self.setup {
            Some(s) => s.clone(),
            None => return Err(TradeBuildError::MissingSetup),
        };
        let quantity = match &self.quantity {
            Some(q) => q.clone(),
            None => return Err(TradeBuildError::MissingQuantity),
        };
        let dollar_value = match &self.dollar_value {
            Some(v) => v.clone(),
            None => return Err(TradeBuildError::MissingDollarValue),
        };
        let source = match &self.source {
            Some(s) => s.clone(),
            None => return Err(TradeBuildError::MissingSource),
        };
        let resolution_strategy = match &self.resolution_strategy {
            Some(r) => r.clone(),
            None => return Err(TradeBuildError::MissingResolutionStrategy),
        };
        let timeseries = match &self.timeseries_addr {
            Some(a) => a.clone(),
            None => return Err(TradeBuildError::MissingTimeSeries),
        };
        Ok(
            Trade {
                setup,
                quantity,
                dollar_value,
                source,
                notifications_enabled: self.notifications_enabled,
                trading_enabled: self.trading_enabled,
                resolution_strategy,
                timeseries,
            },
        )
    }
}

} // verus!
