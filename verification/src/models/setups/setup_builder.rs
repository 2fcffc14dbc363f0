use crate::models::interval::Interval;
use crate::models::setups::setup::Setup;
use crate::models::strategy_orientation::StrategyOrientation;
use vstd::prelude::*;

verus! {

/// A field that building a setup requires and that was not set.
#[derive(Debug, Clone, Copy, PartialEq, Eq, Structural)]
pub enum SetupBuildError {
    MissingCandle,
    MissingOrientation,
    MissingSymbol,
    MissingInterval,
}

/// The message each build error reports.
pub open spec fn setup_build_error_message(e: SetupBuildError) -> Seq<char> {
    match e {
        SetupBuildError::MissingCandle => "Candle is required."@,
        SetupBuildError::MissingOrientation => "Orientation is required."@,
        SetupBuildError::MissingSymbol => "Symbol is required."@,
        SetupBuildError::MissingInterval => "Interval is required."@,
    }
}

impl SetupBuildError {
    pub fn message(&self) -> (s: &'static str)
        ensures
            s@ == setup_build_error_message(*self),
    {
        match self {
            SetupBuildError::MissingCandle => "Candle is required.",
            SetupBuildError::MissingOrientation => "Orientation is required.",
            SetupBuildError::MissingSymbol => "Symbol is required.",
            SetupBuildError::MissingInterval => "Interval is required.",
        }
    }
}

/// Step-by-step construction of a `Setup`.
#[derive(Debug, Clone)]
pub struct SetupBuilder<C> {
    pub candle: Option<C>,
    pub orientation: Option<StrategyOrientation>,
    pub symbol: Option<String>,
    pub interval: Option<Interval>,
}

impl<C: Clone> SetupBuilder<C> {
    /// The error building fails with: the first missing field, in the order
    /// candle, orientation, symbol, interval.
    pub open spec fn first_missing(self) -> Option<SetupBuildError> {
        if self.candle is None {
            Some(SetupBuildError::MissingCandle)
        } else if self.orientation is None {
            Some(SetupBuildError::MissingOrientation)
        } else if self.symbol is None {
            Some(SetupBuildError::MissingSymbol)
        } else if self.interval is None {
            Some(SetupBuildError::MissingInterval)
        } else {
            None
        }
    }

    /// A builder with no field set.
    pub fn new() -> (b: Self)
        ensures
            b.candle is None,
            b.orientation is None,
            b.symbol is None,
            b.interval is None,
    {
        SetupBuilder { candle: None, orientation: None, symbol: None, interval: None }
    }

    pub fn candle(self, candle: &C) -> (b: Self)
        ensures
            b.candle matches Some(c) && cloned::<C>(*candle, c),
            b.orientation == self.orientation,
            b.symbol == self.symbol,
            b.interval == self.interval,
    {
        let mut b = self;
        b.candle = Some(candle.clone());
        b
    }

    pub fn orientation(self, orientation: &StrategyOrientation) -> (b: Self)
        ensures
            b.orientation == Some(*orientation),
            b.candle == self.candle,
            b.symbol == self.symbol,
            b.interval == self.interval,
    {
        let mut b = self;
        b.orientation = Some(*orientation);
        b
    }

    pub fn symbol(self, symbol: &str) -> (b: Self)
        ensures
            b.symbol matches Some(s) && s@ == symbol@,
            b.candle == self.candle,
            b.orientation == self.orientation,
            b.interval == self.interval,
    {
        let mut b = self;
        b.symbol = Some(symbol.to_owned());
        b
    }

    pub fn interval(self, interval: &Interval) -> (b: Self)
        ensures
            b.interval == Some(*interval),
            b.candle == self.candle,
            b.orientation == self.orientation,
            b.symbol == self.symbol,
    {
        let mut b = self;
        b.interval = Some(*interval);
        b
    }

    /// The setup made of the builder's fields, or the first missing field.
    pub fn build(&self) -> (r: Result<Setup<C>, SetupBuildError>)
        ensures
            self.first_missing() matches Some(e) ==> r == Err::<Setup<C>, SetupBuildError>(e),
            self.first_missing() is None ==> (r matches Ok(setup)
                && cloned::<C>(self.candle->Some_0, setup.candle)
                && setup.orientation == self.orientation->Some_0
                && setup.symbol@ == self.symbol->Some_0@
                && setup.interval == self.interval->Some_0),
    {
        let candle = match &self.candle {
            Some(c) => c.clone(),
            None => return Err(SetupBuildError::MissingCandle),
        };
        let orientation = match self.orientation {
            Some(o) => o,
            None => return Err(SetupBuildError::MissingOrientation),
        };
        let symbol = match &self.symbol {
            Some(s) => s.clone(),
            None => return Err(SetupBuildError::MissingSymbol),
        };
        let interval = match self.interval {
            Some(i) => i,
            None => return Err(SetupBuildError::MissingInterval),
        };
        Ok(Setup { candle, orientation, symbol, interval })
    }
}

} // verus!
