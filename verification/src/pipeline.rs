//! Outcome of one layer of the IN pipeline.
use vstd::prelude::*;

verus! {

/// Side effect of a layer that consumed an IN frame.
#[derive(PartialEq, Eq, Structural, Clone, Copy, Debug)]
pub enum LayerEffect {
    Nothing,
    /// Scroll lane advanced and ACK `f0:03` sub=`08` sent.
    ScrollLaneAndAck,
}

/// What a layer did with an IN frame.
#[derive(PartialEq, Eq, Structural, Clone, Copy, Debug)]
pub enum LayerResult {
    Ignored,
    Consumed { effect: LayerEffect },
}

} // verus!
