//! Step-by-step construction of a `SetupFinder`, which fails on the first
//! field that a finder needs and that was not set.
use crate::models::setups::setup_finder::{clone_all, SetupFinder};
use vstd::prelude::*;

verus! {

/// A field that building a setup finder requires and that was not set.
#[derive(Debug, Clone, Copy, PartialEq, Eq, Structural)]
pub enum SetupFinderBuildError {
    MissingStrategy,
    MissingTimeSeries,
    MissingSource,
}

/// The message each build error reports.
pub open spec fn setup_finder_build_error_message(e: SetupFinderBuildError) -> Seq<char> {
    match e {
        SetupFinderBuildError::MissingStrategy => "Strategy is required to build SetupFinder"@,
        SetupFinderBuildError::MissingTimeSeries => "TimeSeries address is required to build SetupFinder"@,
        SetupFinderBuildError::MissingSource => "Source is required to build SetupFinder"@,
    }
}

impl SetupFinderBuildError {
    pub fn message(&self) -> (s: &'static str)
        ensures
            s@ == setup_finder_build_error_message(*self),
    {
        match self {
            SetupFinderBuildError::MissingStrategy => "Strategy is required to build SetupFinder",
            SetupFinderBuildError::MissingTimeSeries => "TimeSeries address is required to build SetupFinder",
            SetupFinderBuildError::MissingSource => "Source is required to build SetupFinder",
        }
    }
}

/// Step-by-step construction of a `SetupFinder` with a strategy of type `S`,
/// a time series handle of type `T`, a data source of type `D` and trade
/// handles of type `A`.
pub struct SetupFinderBuilder<S, T, D, A> {
    pub strategy: Option<S>,
    pub ts: Option<T>,
    pub source: Option<D>,
    pub notifications_enabled: bool,
    pub live_trading_enabled: bool,
    pub spawned_trades: Vec<A>,
}

impl<S, T, D, A: Clone> SetupFinderBuilder<S, T, D, A> {
    /// The error building fails with: the first missing field, in the order
    /// strategy, time series, source.
    pub open spec fn first_missing(self) -> Option<SetupFinderBuildError> {
        if self.strategy is None {
            Some(SetupFinderBuildError::MissingStrategy)
        } else if self.ts is None {
            Some(SetupFinderBuildError::MissingTimeSeries)
        } else if self.source is None {
            Some(SetupFinderBuildError::MissingSource)
        } else {
            None
        }
    }

    /// A builder with nothing set, notifications and live trading off and no
    /// spawned trades.
    pub fn new() -> (b: Self)
        ensures
            b.strategy is None,
            b.ts is None,
            b.source is None,
            !b.notifications_enabled,
            !b.live_trading_enabled,
            b.spawned_trades@ == Seq::<A>::empty(),
    {
        SetupFinderBuilder {
            strategy: None,
            ts: None,
            source: None,
            notifications_enabled: false,
            live_trading_enabled: false,
            spawned_trades: Vec::new(),
        }
    }

    pub fn strategy(self, strategy: S) -> (b: Self)
        ensures
            b.strategy == Some(strategy),
            b.ts == self.ts,
            b.source == self.source,
            b.notifications_enabled == self.notifications_enabled,
            b.live_trading_enabled == self.live_trading_enabled,
            b.spawned_trades == self.spawned_trades,
    {
        let mut b = self;
        b.strategy = Some(strategy);
        b
    }

    pub fn source(self, source: D) -> (b: Self)
        ensures
            b.source == Some(source),
            b.strategy == self.strategy,
            b.ts == self.ts,
            b.notifications_enabled == self.notifications_enabled,
            b.live_trading_enabled == self.live_trading_enabled,
            b.spawned_trades == self.spawned_trades,
    {
        let mut b = self;
        b.source = Some(source);
        b
    }

    pub fn ts(self, ts: T) -> (b: Self)
        ensures
            b.ts == Some(ts),
            b.strategy == self.strategy,
            b.source == self.source,
            b.notifications_enabled == self.notifications_enabled,
            b.live_trading_enabled == self.live_trading_enabled,
            b.spawned_trades == self.spawned_trades,
    {
        let mut b = self;
        b.ts = Some(ts);
        b
    }

    pub fn notifications_enabled(self, notifications_enabled: bool) -> (b: Self)
        ensures
            b.notifications_enabled == notifications_enabled,
            b.strategy == self.strategy,
            b.ts == self.ts,
            b.source == self.source,
            b.live_trading_enabled == self.live_trading_enabled,
            b.spawned_trades == self.spawned_trades,
    {
        let mut b = self;
        b.notifications_enabled = notifications_enabled;
        b
    }

    pub fn live_trading_enabled(self, live_trading_enabled: bool) -> (b: Self)
        ensures
            b.live_trading_enabled == live_trading_enabled,
            b.strategy == self.strategy,
            b.ts == self.ts,
            b.source == self.source,
            b.notifications_enabled == self.notifications_enabled,
            b.spawned_trades == self.spawned_trades,
    {
        let mut b = self;
        b.live_trading_enabled = live_trading_enabled;
        b
    }

    /// The trades spawned so far: clones of `trades`.
    pub fn spawned_trades(self, trades: &[A]) -> (b: Self)
        ensures
            b.spawned_trades@.len() == trades@.len(),
            forall|i: int|
                0 <= i < trades@.len() ==> cloned::<A>(trades@[i], #[trigger] b.spawned_trades@[i]),
            b.strategy == self.strategy,
            b.ts == self.ts,
            b.source == self.source,
            b.notifications_enabled == self.notifications_enabled,
            b.live_trading_enabled == self.live_trading_enabled,
    {
        let mut b = self;
        b.spawned_trades = clone_all(trades);
        b
    }

    /// The finder made of the builder's fields, or the first missing field.
    pub fn build(self) -> (r: Result<SetupFinder<S, T, D, A>, SetupFinderBuildError>)
        ensures
            self.first_missing() matches Some(e) ==> r == Err::<
                SetupFinder<S, T, D, A>,
                SetupFinderBuildError,
            >(e),
            self.first_missing() is None ==> r == Ok::<
                SetupFinder<S, T, D, A>,
                SetupFinderBuildError,
            >(
                SetupFinder {
                    strategy: self.strategy->Some_0,
                    ts_addr: self.ts->Some_0,
                    source: self.source->Some_0,
                    notifications_enabled: self.notifications_enabled,
                    live_trading_enabled: self.live_trading_enabled,
                    spawned_trade_addrs: self.spawned_trades,
                },
            ),
    {
        let strategy = match self.strategy {
            Some(s) => s,
            None => return Err(SetupFinderBuildError::MissingStrategy),
        };
        let ts_addr = match self.ts {
            Some(t) => t,
            None => return Err(SetupFinderBuildError::MissingTimeSeries),
        };
        let source = match self.source {
            Some(d) => d,
            None => return Err(SetupFinderBuildError::MissingSource),
        };
        Ok(
            SetupFinder {
                strategy,
                ts_addr,
                source,
                notifications_enabled: self.notifications_enabled,
                live_trading_enabled: self.live_trading_enabled,
                spawned_trade_addrs: self.spawned_trades,
            },
        )
    }
}

} // verus!
