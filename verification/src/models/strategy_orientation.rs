use vstd::prelude::*;

verus! {

/// Direction a strategy trades in.
#[derive(Debug, Clone, Copy, PartialEq, Eq, Hash, Structural)]
pub enum StrategyOrientation {
    Long,
    Short,
}

/// The name under which an orientation is shown to users.
pub open spec fn orientation_label(o: StrategyOrientation) -> Seq<char> {
    match o {
        StrategyOrientation::Long => "Long"@,
        StrategyOrientation::Short => "Short"@,
    }
}

impl StrategyOrientation {
    /// The name under which the orientation is shown to users.
    pub fn label(&self) -> (s: &'static str)
        ensures
            s@ == orientation_label(*self),
    {
        match self {
            StrategyOrientation::Long => "Long",
            StrategyOrientation::Short => "Short",
        }
    }
}

} // verus!
