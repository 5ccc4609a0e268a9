//! Filter output mode selection.

use vstd::prelude::*;

verus! {

/// Filter mode - which output to use
#[derive(Debug, Clone, Copy, PartialEq, Eq, Structural)]
pub enum FilterMode {
    LowPass,
    HighPass,
    BandPass,
}

/// Display name of a filter mode.
pub open spec fn filter_mode_name(m: FilterMode) -> Seq<char> {
    match m {
        FilterMode::LowPass => "LowPass"@,
        FilterMode::HighPass => "HighPass"@,
        FilterMode::BandPass => "BandPass"@,
    }
}

impl FilterMode {
    pub fn name(&self) -> (r: &'static str)
        ensures
            r@ == filter_mode_name(*self),
    {
        match self {
            FilterMode::LowPass => "LowPass",
            FilterMode::HighPass => "HighPass",
            FilterMode::BandPass => "BandPass",
        }
    }
}

impl Default for FilterMode {
    fn default() -> (r: Self)
        ensures
            r == FilterMode::LowPass,
    {
        FilterMode::LowPass
    }
}

} // verus!
