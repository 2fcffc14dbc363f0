use crate::indicators::indicator_args::{IndicatorArgs, IndicatorError, TWO_STD_DEV};
use crate::models::ma_type::MAType;
use vstd::prelude::*;

verus! {

/// Identifies an indicator together with the parameters it was computed with;
/// a candle holds at most one value per indicator type.
#[derive(Debug, Clone, Copy, PartialEq, Eq, Hash, Structural)]
pub enum IndicatorType {
    SMA(usize),
    EMA(usize),
    RSI(usize),
    ATR(usize),
    BollingerBands(usize),
    BBW(usize),
    /// length, lookback
    BBWP(usize, usize),
    DynamicPivot(usize),
    /// length, moving average type
    PMAR(usize, MAType),
    /// length, lookback, moving average type
    PMARP(usize, usize, MAType),
    /// K length, K smoothing, D smoothing
    Stochastic(usize, usize, usize),
}

/// Length of the moving average over BBWP values that a BBWP indicator type
/// populates.
pub const BBWP_MA_LEN: usize = 5;

/// The arguments with which an indicator type populates a series.
pub open spec fn spec_populate_args(t: IndicatorType) -> IndicatorArgs {
    match t {
        IndicatorType::SMA(n) => IndicatorArgs::LengthArg(n),
        IndicatorType::EMA(n) => IndicatorArgs::LengthArg(n),
        IndicatorType::RSI(n) => IndicatorArgs::LengthArg(n),
        IndicatorType::ATR(n) => IndicatorArgs::LengthArg(n),
        IndicatorType::BollingerBands(n) => IndicatorArgs::BollingerBandArgs(n, TWO_STD_DEV),
        IndicatorType::BBW(n) => IndicatorArgs::BollingerBandArgs(n, TWO_STD_DEV),
        IndicatorType::BBWP(n, lookback) => IndicatorArgs::BBWPArgs(n, lookback, BBWP_MA_LEN),
        IndicatorType::DynamicPivot(n) => IndicatorArgs::LengthArg(n),
        IndicatorType::PMAR(n, ma) => IndicatorArgs::PMARArgs(n, ma),
        IndicatorType::PMARP(n, lookback, ma) => IndicatorArgs::PMARPArgs(n, lookback, ma),
        IndicatorType::Stochastic(k, ks, ds) => IndicatorArgs::StochasticArgs(k, ks, ds),
    }
}

impl IndicatorType {
    /// The arguments with which `populate_candles` and `populate_last_candle`
    /// compute this indicator type.
    pub fn populate_args(&self) -> (args: IndicatorArgs)
        ensures
            args == spec_populate_args(*self),
    {
        match self {
            IndicatorType::SMA(n) => IndicatorArgs::LengthArg(*n),
            IndicatorType::EMA(n) => IndicatorArgs::LengthArg(*n),
            IndicatorType::RSI(n) => IndicatorArgs::LengthArg(*n),
            IndicatorType::ATR(n) => IndicatorArgs::LengthArg(*n),
            IndicatorType::BollingerBands(n) => IndicatorArgs::BollingerBandArgs(*n, TWO_STD_DEV),
            IndicatorType::BBW(n) => IndicatorArgs::BollingerBandArgs(*n, TWO_STD_DEV),
            IndicatorType::BBWP(n, lookback) => IndicatorArgs::BBWPArgs(*n, *lookback, BBWP_MA_LEN),
            IndicatorType::DynamicPivot(n) => IndicatorArgs::LengthArg(*n),
            IndicatorType::PMAR(n, ma) => IndicatorArgs::PMARArgs(*n, *ma),
            IndicatorType::PMARP(n, lookback, ma) => IndicatorArgs::PMARPArgs(*n, *lookback, *ma),
            IndicatorType::Stochastic(k, ks, ds) => IndicatorArgs::StochasticArgs(*k, *ks, *ds),
        }
    }
}

} // verus!

verus! {

/// The family of an indicator, without its parameters.
#[derive(Debug, Clone, Copy, PartialEq, Eq, Hash, Structural)]
pub enum IndicatorKind {
    SMA,
    EMA,
    RSI,
    ATR,
    BollingerBands,
    BBW,
    BBWP,
    DynamicPivot,
    PMAR,
    PMARP,
    Stochastic,
}

/// The family an indicator type belongs to.
pub open spec fn spec_kind(t: IndicatorType) -> IndicatorKind {
    match t {
        IndicatorType::SMA(_) => IndicatorKind::SMA,
        IndicatorType::EMA(_) => IndicatorKind::EMA,
        IndicatorType::RSI(_) => IndicatorKind::RSI,
        IndicatorType::ATR(_) => IndicatorKind::ATR,
        IndicatorType::BollingerBands(_) => IndicatorKind::BollingerBands,
        IndicatorType::BBW(_) => IndicatorKind::BBW,
        IndicatorType::BBWP(_, _) => IndicatorKind::BBWP,
        IndicatorType::DynamicPivot(_) => IndicatorKind::DynamicPivot,
        IndicatorType::PMAR(_, _) => IndicatorKind::PMAR,
        IndicatorType::PMARP(_, _, _) => IndicatorKind::PMARP,
        IndicatorType::Stochastic(_, _, _) => IndicatorKind::Stochastic,
    }
}

/// The key under which an indicator of family `k`, computed with `args`,
/// stores its values; an error when `args` are not of the kind the family
/// takes. PMAR takes a bare length too, for its simple-moving-average form.
pub open spec fn spec_recorded_type(k: IndicatorKind, args: IndicatorArgs) -> Result<
    IndicatorType,
    IndicatorError,
> {
    match (k, args) {
        (IndicatorKind::SMA, IndicatorArgs::LengthArg(n)) => Ok(IndicatorType::SMA(n)),
        (IndicatorKind::EMA, IndicatorArgs::LengthArg(n)) => Ok(IndicatorType::EMA(n)),
        (IndicatorKind::RSI, IndicatorArgs::LengthArg(n)) => Ok(IndicatorType::RSI(n)),
        (IndicatorKind::ATR, IndicatorArgs::LengthArg(n)) => Ok(IndicatorType::ATR(n)),
        (IndicatorKind::BollingerBands, IndicatorArgs::BollingerBandArgs(n, _)) => Ok(
            IndicatorType::BollingerBands(n),
        ),
        (IndicatorKind::BBW, IndicatorArgs::BollingerBandArgs(n, _)) => Ok(IndicatorType::BBW(n)),
        (IndicatorKind::BBWP, IndicatorArgs::BBWPArgs(n, lookback, _)) => Ok(
            IndicatorType::BBWP(n, lookback),
        ),
        (IndicatorKind::DynamicPivot, IndicatorArgs::LengthArg(n)) => Ok(
            IndicatorType::DynamicPivot(n),
        ),
        (IndicatorKind::PMAR, IndicatorArgs::PMARArgs(n, ma)) => Ok(IndicatorType::PMAR(n, ma)),
        (IndicatorKind::PMAR, IndicatorArgs::LengthArg(n)) => Ok(
            IndicatorType::PMAR(n, MAType::SMA),
        ),
        (IndicatorKind::PMARP, IndicatorArgs::PMARPArgs(n, lookback, ma)) => Ok(
            IndicatorType::PMARP(n, lookback, ma),
        ),
        (IndicatorKind::Stochastic, IndicatorArgs::StochasticArgs(k, ks, ds)) => Ok(
            IndicatorType::Stochastic(k, ks, ds),
        ),
        _ => Err(IndicatorError::InvalidArguments),
    }
}

impl IndicatorType {
    /// The family this indicator type belongs to.
    pub fn kind(&self) -> (k: IndicatorKind)
        ensures
            k == spec_kind(*self),
    {
        match self {
            IndicatorType::SMA(_) => IndicatorKind::SMA,
            IndicatorType::EMA(_) => IndicatorKind::EMA,
            IndicatorType::RSI(_) => IndicatorKind::RSI,
            IndicatorType::ATR(_) => IndicatorKind::ATR,
            IndicatorType::BollingerBands(_) => IndicatorKind::BollingerBands,
            IndicatorType::BBW(_) => IndicatorKind::BBW,
            IndicatorType::BBWP(_, _) => IndicatorKind::BBWP,
            IndicatorType::DynamicPivot(_) => IndicatorKind::DynamicPivot,
            IndicatorType::PMAR(_, _) => IndicatorKind::PMAR,
            IndicatorType::PMARP(_, _, _) => IndicatorKind::PMARP,
            IndicatorType::Stochastic(_, _, _) => IndicatorKind::Stochastic,
        }
    }
}

impl IndicatorKind {
    /// The key under which this family's values, computed with `args`, are
    /// stored on candles and in the series' set of populated indicators.
    pub fn indicator_type(&self, args: &IndicatorArgs) -> (r: Result<IndicatorType, IndicatorError>)
        ensures
            r == spec_recorded_type(*self, *args),
    {
        match (self, args) {
            (IndicatorKind::SMA, IndicatorArgs::LengthArg(n)) => Ok(IndicatorType::SMA(*n)),
            (IndicatorKind::EMA, IndicatorArgs::LengthArg(n)) => Ok(IndicatorType::EMA(*n)),
            (IndicatorKind::RSI, IndicatorArgs::LengthArg(n)) => Ok(IndicatorType::RSI(*n)),
            (IndicatorKind::ATR, IndicatorArgs::LengthArg(n)) => Ok(IndicatorType::ATR(*n)),
            (IndicatorKind::BollingerBands, IndicatorArgs::BollingerBandArgs(n, _)) => Ok(
                IndicatorType::BollingerBands(*n),
            ),
            (IndicatorKind::BBW, IndicatorArgs::BollingerBandArgs(n, _)) => Ok(
                IndicatorType::BBW(*n),
            ),
            (IndicatorKind::BBWP, IndicatorArgs::BBWPArgs(n, lookback, _)) => Ok(
                IndicatorType::BBWP(*n, *lookback),
            ),
            (IndicatorKind::DynamicPivot, IndicatorArgs::LengthArg(n)) => Ok(
                IndicatorType::DynamicPivot(*n),
            ),
            (IndicatorKind::PMAR, IndicatorArgs::PMARArgs(n, ma)) => Ok(
                IndicatorType::PMAR(*n, *ma),
            ),
            (IndicatorKind::PMAR, IndicatorArgs::LengthArg(n)) => Ok(
                IndicatorType::PMAR(*n, MAType::SMA),
            ),
            (IndicatorKind::PMARP, IndicatorArgs::PMARPArgs(n, lookback, ma)) => Ok(
                IndicatorType::PMARP(*n, *lookback, *ma),
            ),
            (IndicatorKind::Stochastic, IndicatorArgs::StochasticArgs(k, ks, ds)) => Ok(
                IndicatorType::Stochastic(*k, *ks, *ds),
            ),
            _ => Err(IndicatorError::InvalidArguments),
        }
    }
}

/// Populating a series by an indicator type stores the values under that
/// same type: the family of `t`, given the arguments `t` populates with,
/// records its values under `t`.
pub proof fn lemma_populate_records_under_own_type(t: IndicatorType)
    ensures
        spec_recorded_type(spec_kind(t), spec_populate_args(t)) == Ok::<
            IndicatorType,
            IndicatorError,
        >(t),
{
}

} // verus!

verus! {

/// The arguments each indicator family is computed with by default.
pub open spec fn spec_default_args(k: IndicatorKind) -> IndicatorArgs {
    match k {
        IndicatorKind::SMA => IndicatorArgs::LengthArg(8),
        IndicatorKind::EMA => IndicatorArgs::LengthArg(8),
        IndicatorKind::RSI => IndicatorArgs::LengthArg(14),
        IndicatorKind::ATR => IndicatorArgs::LengthArg(14),
        IndicatorKind::BollingerBands => IndicatorArgs::BollingerBandArgs(20, TWO_STD_DEV),
        IndicatorKind::BBW => IndicatorArgs::BollingerBandArgs(20, TWO_STD_DEV),
        IndicatorKind::BBWP => IndicatorArgs::BBWPArgs(13, 252, 5),
        IndicatorKind::DynamicPivot => IndicatorArgs::LengthArg(15),
        IndicatorKind::PMAR => IndicatorArgs::LengthArg(20),
        IndicatorKind::PMARP => IndicatorArgs::PMARPArgs(20, 350, MAType::VWMA),
        IndicatorKind::Stochastic => IndicatorArgs::StochasticArgs(14, 1, 3),
    }
}

impl IndicatorKind {
    /// The arguments the family is computed with when none are given.
    pub fn default_args(&self) -> (args: IndicatorArgs)
        ensures
            args == spec_default_args(*self),
    {
        match self {
            IndicatorKind::SMA => IndicatorArgs::LengthArg(8),
            IndicatorKind::EMA => IndicatorArgs::LengthArg(8),
            IndicatorKind::RSI => IndicatorArgs::LengthArg(14),
            IndicatorKind::ATR => IndicatorArgs::LengthArg(14),
            IndicatorKind::BollingerBands => IndicatorArgs::BollingerBandArgs(20, TWO_STD_DEV),
            IndicatorKind::BBW => IndicatorArgs::BollingerBandArgs(20, TWO_STD_DEV),
            IndicatorKind::BBWP => IndicatorArgs::BBWPArgs(13, 252, 5),
            IndicatorKind::DynamicPivot => IndicatorArgs::LengthArg(15),
            IndicatorKind::PMAR => IndicatorArgs::LengthArg(20),
            IndicatorKind::PMARP => IndicatorArgs::PMARPArgs(20, 350, MAType::VWMA),
            IndicatorKind::Stochastic => IndicatorArgs::StochasticArgs(14, 1, 3),
        }
    }
}

/// The stochastic arguments of the "Krown" trading setup.
pub fn krown_args() -> (args: IndicatorArgs)
    ensures
        args == IndicatorArgs::StochasticArgs(14, 3, 6),
{
    IndicatorArgs::StochasticArgs(14, 3, 6)
}

/// Every family's default arguments are accepted, and populating by the
/// resulting indicator type uses those same arguments, but for PMAR: its
/// default is a bare length, which keys the simple-moving-average PMAR of
/// that length, populated with the length and that moving average type.
pub proof fn lemma_default_args_accepted(k: IndicatorKind)
    ensures
        spec_recorded_type(k, spec_default_args(k)) is Ok,
        k != IndicatorKind::PMAR ==> spec_populate_args(
            spec_recorded_type(k, spec_default_args(k))->Ok_0,
        ) == spec_default_args(k),
        k == IndicatorKind::PMAR ==> spec_recorded_type(k, spec_default_args(k)) == Ok::<
            IndicatorType,
            IndicatorError,
        >(IndicatorType::PMAR(20, MAType::SMA)),
{
}

} // verus!
