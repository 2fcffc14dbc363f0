use vstd::prelude::*;

verus! {

/// Kind of moving average an indicator smooths with.
#[derive(Debug, Clone, Copy, PartialEq, Eq, Hash, Structural)]
pub enum MAType {
    SMA,
    EMA,
    VWMA,
}

} // verus!
