//! Depth snapshots: the levels of both sides at one moment.

use vstd::prelude::*;
use crate::price::Price;

verus! {

/// One price level: a price and the size resting at it.
#[derive(Clone, Copy, Debug, PartialEq, Eq, Structural)]
pub struct Level {
    pub price: Price,
    pub size: i64,
}

/// A whole view of the top levels of each side, in the order received. Each
/// snapshot replaces the one before it.
#[derive(Clone, Debug, PartialEq, Eq)]
pub struct DepthSnapshot {
    pub asks: Vec<Level>,
    pub bids: Vec<Level>,
}

/// A snapshot as two sequences of levels.
pub struct SnapshotView {
    pub asks: Seq<Level>,
    pub bids: Seq<Level>,
}

impl View for DepthSnapshot {
    type V = SnapshotView;

    open spec fn view(&self) -> SnapshotView {
        SnapshotView { asks: self.asks@, bids: self.bids@ }
    }
}

} // verus!
