use crate::indicators::indicator_type::IndicatorType;
use vstd::prelude::*;

verus! {

pub trait RequiresIndicators {
    /// Required indicators for successful use of a strategy.
    fn required_indicators(&self) -> Vec<IndicatorType>;
}

} // verus!
