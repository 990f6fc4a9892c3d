//! The slot selector: a two-valued index naming one half of the paired
//! storage, with a total "flip" operation used to alternate between the
//! active and standby buffers.

use vstd::prelude::*;

verus! {

/// Names one of the two slots of the paired allocation.
#[derive(Clone, Copy, PartialEq, Eq, Debug)]
pub enum MapIndex {
    First,
    Second,
}

impl MapIndex {
    /// The opposite slot index, as a mathematical function.
    pub open spec fn spec_other(self) -> MapIndex {
        match self {
            MapIndex::First => MapIndex::Second,
            MapIndex::Second => MapIndex::First,
        }
    }

    /// Validates an externally supplied index: `0` and `1` name the two
    /// slots; anything else is rejected with `None` rather than an abort.
    pub fn from_usize(index: usize) -> (r: Option<MapIndex>)
        ensures
            index == 0 ==> r == Some(MapIndex::First),
            index == 1 ==> r == Some(MapIndex::Second),
            index >= 2 ==> r is None,
    {
        match index {
            0 => Some(MapIndex::First),
            1 => Some(MapIndex::Second),
            _ => None,
        }
    }

    /// The buffer-flip operation: returns the opposite slot index.
    pub fn other(self) -> (r: MapIndex)
        ensures
            r == self.spec_other(),
    {
        match self {
            MapIndex::First => MapIndex::Second,
            MapIndex::Second => MapIndex::First,
        }
    }
}

/// Flipping the slot index is an involution with no fixed point: flipping
/// twice returns to the starting slot, and a single flip never yields the
/// slot it started from.
pub proof fn lemma_other_involution(x: MapIndex)
    ensures
        x.spec_other().spec_other() == x,
        x.spec_other() != x,
{
}

} // verus!
