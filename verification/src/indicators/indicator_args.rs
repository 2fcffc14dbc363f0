use crate::models::ma_type::MAType;
use vstd::prelude::*;

verus! {

/// IEEE-754 bit pattern of a number of standard deviations
/// (`f64::to_bits` of the value, read back with `f64::from_bits`).
pub type StdDevBits = u64;

/// Bit pattern of `1.0` standard deviations.
pub const ONE_STD_DEV: StdDevBits = 0x3FF0_0000_0000_0000;

/// Bit pattern of `2.0` standard deviations.
pub const TWO_STD_DEV: StdDevBits = 0x4000_0000_0000_0000;

/// Arguments an indicator is computed with.
#[derive(Debug, Clone, Copy, PartialEq, Eq, Structural)]
pub enum IndicatorArgs {
    /// length
    LengthArg(usize),
    /// length, number of standard deviations
    BollingerBandArgs(usize, StdDevBits),
    /// BBWP length, lookback, moving average length
    BBWPArgs(usize, usize, usize),
    /// length, lookback
    LengthLookbackArgs(usize, usize),
    /// length, moving average type
    PMARArgs(usize, MAType),
    /// length, lookback, moving average type
    PMARPArgs(usize, usize, MAType),
    /// K length, K smoothing, D smoothing
    StochasticArgs(usize, usize, usize),
}

/// Failure of an indicator computation.
#[derive(Debug, Clone, Copy, PartialEq, Eq, Structural)]
pub enum IndicatorError {
    /// The arguments are of another kind than the indicator takes.
    InvalidArguments,
    /// The series holds no candle to populate.
    NoCandle,
    /// The series holds too few candles to populate.
    NotEnoughCandles,
}

/// The message each indicator error reports.
pub open spec fn indicator_error_message(e: IndicatorError) -> Seq<char> {
    match e {
        IndicatorError::InvalidArguments => "Invalid indicator arguments."@,
        IndicatorError::NoCandle => "No candle to populate"@,
        IndicatorError::NotEnoughCandles => "Not enough candles to populate."@,
    }
}

impl IndicatorError {
    /// The message describing the error.
    pub fn message(&self) -> (s: &'static str)
        ensures
            s@ == indicator_error_message(*self),
    {
        match self {
            IndicatorError::InvalidArguments => "Invalid indicator arguments.",
            IndicatorError::NoCandle => "No candle to populate",
            IndicatorError::NotEnoughCandles => "Not enough candles to populate.",
        }
    }
}

impl IndicatorArgs {
    pub fn len_opt(&self) -> (r: Option<usize>)
        ensures
            r == (match *self {
                IndicatorArgs::LengthArg(n) => Some(n),
                _ => None::<usize>,
            }),
    {
        match self {
            IndicatorArgs::LengthArg(n) => Some(*n),
            _ => None,
        }
    }

    pub fn len_res(&self) -> (r: Result<usize, IndicatorError>)
        ensures
            r == (match *self {
                IndicatorArgs::LengthArg(n) => Ok(n),
                _ => Err(IndicatorError::InvalidArguments),
            }),
    {
        match self {
            IndicatorArgs::LengthArg(n) => Ok(*n),
            _ => Err(IndicatorError::InvalidArguments),
        }
    }

    pub fn bb_opt(&self) -> (r: Option<(usize, StdDevBits)>)
        ensures
            r == (match *self {
                IndicatorArgs::BollingerBandArgs(n, m) => Some((n, m)),
                _ => None::<(usize, StdDevBits)>,
            }),
    {
        match self {
            IndicatorArgs::BollingerBandArgs(n, m) => Some((*n, *m)),
            _ => None,
        }
    }

    pub fn bb_res(&self) -> (r: Result<(usize, StdDevBits), IndicatorError>)
        ensures
            r == (match *self {
                IndicatorArgs::BollingerBandArgs(n, m) => Ok((n, m)),
                _ => Err(IndicatorError::InvalidArguments),
            }),
    {
        match self {
            IndicatorArgs::BollingerBandArgs(n, m) => Ok((*n, *m)),
            _ => Err(IndicatorError::InvalidArguments),
        }
    }

    pub fn bbwp_opt(&self) -> (r: Option<(usize, usize, usize)>)
        ensures
            r == (match *self {
                IndicatorArgs::BBWPArgs(a, b, c) => Some((a, b, c)),
                _ => None::<(usize, usize, usize)>,
            }),
    {
        match self {
            IndicatorArgs::BBWPArgs(a, b, c) => Some((*a, *b, *c)),
            _ => None,
        }
    }

    pub fn bbwp_res(&self) -> (r: Result<(usize, usize, usize), IndicatorError>)
        ensures
            r == (match *self {
                IndicatorArgs::BBWPArgs(a, b, c) => Ok((a, b, c)),
                _ => Err(IndicatorError::InvalidArguments),
            }),
    {
        match self {
            IndicatorArgs::BBWPArgs(a, b, c) => Ok((*a, *b, *c)),
            _ => Err(IndicatorError::InvalidArguments),
        }
    }

    pub fn len_lookback_opt(&self) -> (r: Option<(usize, usize)>)
        ensures
            r == (match *self {
                IndicatorArgs::LengthLookbackArgs(a, b) => Some((a, b)),
                _ => None::<(usize, usize)>,
            }),
    {
        match self {
            IndicatorArgs::LengthLookbackArgs(a, b) => Some((*a, *b)),
            _ => None,
        }
    }

    pub fn len_lookback_res(&self) -> (r: Result<(usize, usize), IndicatorError>)
        ensures
            r == (match *self {
                IndicatorArgs::LengthLookbackArgs(a, b) => Ok((a, b)),
                _ => Err(IndicatorError::InvalidArguments),
            }),
    {
        match self {
            IndicatorArgs::LengthLookbackArgs(a, b) => Ok((*a, *b)),
            _ => Err(IndicatorError::InvalidArguments),
        }
    }

    pub fn pmar_opt(&self) -> (r: Option<(usize, MAType)>)
        ensures
            r == (match *self {
                IndicatorArgs::PMARArgs(a, b) => Some((a, b)),
                _ => None::<(usize, MAType)>,
            }),
    {
        match self {
            IndicatorArgs::PMARArgs(a, b) => Some((*a, *b)),
            _ => None,
        }
    }

    pub fn pmar_res(&self) -> (r: Result<(usize, MAType), IndicatorError>)
        ensures
            r == (match *self {
                IndicatorArgs::PMARArgs(a, b) => Ok((a, b)),
                _ => Err(IndicatorError::InvalidArguments),
            }),
    {
        match self {
            IndicatorArgs::PMARArgs(a, b) => Ok((*a, *b)),
            _ => Err(IndicatorError::InvalidArguments),
        }
    }

    pub fn pmarp_opt(&self) -> (r: Option<(usize, usize, MAType)>)
        ensures
            r == (match *self {
                IndicatorArgs::PMARPArgs(a, b, c) => Some((a, b, c)),
                _ => None::<(usize, usize, MAType)>,
            }),
    {
        match self {
            IndicatorArgs::PMARPArgs(a, b, c) => Some((*a, *b, *c)),
            _ => None,
        }
    }

    pub fn pmarp_res(&self) -> (r: Result<(usize, usize, MAType), IndicatorError>)
        ensures
            r == (match *self {
                IndicatorArgs::PMARPArgs(a, b, c) => Ok((a, b, c)),
                _ => Err(IndicatorError::InvalidArguments),
            }),
    {
        match self {
            IndicatorArgs::PMARPArgs(a, b, c) => Ok((*a, *b, *c)),
            _ => Err(IndicatorError::InvalidArguments),
        }
    }

    pub fn stochastic_res(&self) -> (r: Result<(usize, usize, usize), IndicatorError>)
        ensures
            r == (match *self {
                IndicatorArgs::StochasticArgs(a, b, c) => Ok((a, b, c)),
                _ => Err(IndicatorError::InvalidArguments),
            }),
    {
        match self {
            IndicatorArgs::StochasticArgs(a, b, c) => Ok((*a, *b, *c)),
            _ => Err(IndicatorError::InvalidArguments),
        }
    }

    pub fn stochastic_opt(&self) -> (r: Option<(usize, usize, usize)>)
        ensures
            r == (match *self {
                IndicatorArgs::StochasticArgs(a, b, c) => Some((a, b, c)),
                _ => None::<(usize, usize, usize)>,
            }),
    {
        match self {
            IndicatorArgs::StochasticArgs(a, b, c) => Some((*a, *b, *c)),
            _ => None,
        }
    }
}

} // verus!
