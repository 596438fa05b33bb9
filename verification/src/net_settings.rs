//! Plain settings values shared by the network-generation widgets.

use vstd::prelude::*;

verus! {

/// How the weight of a generated edge is chosen.
#[derive(Clone, Copy, Debug, PartialEq, Eq, Structural)]
pub enum EdgeWeight {
    /// Fixed weight
    Fixed,
    /// Random weight in range 0..1
    Random,
}

impl Default for EdgeWeight {
    /// Generated edges default to a fixed weight.
    fn default() -> (r: EdgeWeight)
        ensures
            r is Fixed,
    {
        EdgeWeight::Fixed
    }
}

} // verus!
