//! The ways in which the feed can fail.

use vstd::prelude::*;

verus! {

/// One side of the book.
#[derive(Clone, Copy, Debug, PartialEq, Eq, Structural)]
pub enum Side {
    Ask,
    Bid,
}

/// Why a frame could not be decoded.
#[derive(Clone, Copy, Debug, PartialEq, Eq, Structural)]
pub enum DecodeError {
    /// The frame is not a JSON document.
    Syntax,
    /// The update holds no array of levels for this side.
    MissingSide { side: Side },
    /// The level at this index of this side is not a pair of a decimal price
    /// text and an integer size.
    BadLevel { side: Side, index: usize },
}

/// Why the feed stopped or a frame was dropped.
#[derive(Clone, Copy, Debug, PartialEq, Eq, Structural)]
pub enum FeedError {
    /// The network failed: a request, the connection, a send or a receive.
    Transport,
    /// The peer answered, but not with what the protocol expects.
    Protocol,
    /// One frame was malformed.
    Decode(DecodeError),
    /// A table could not be written out.
    Output,
}

} // verus!
