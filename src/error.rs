use vstd::prelude::*;

verus! {

/// Failures that a layer operation reports to its caller.
#[derive(Debug, Clone, Copy, PartialEq, Eq, Structural)]
pub enum LayerError {
    /// An input's dimensions do not fit the layer's sizes or the cached batch.
    ShapeMismatch,
    /// An operation ran before the state it depends on was cached.
    InvalidState,
    /// A layer was asked for with a zero size.
    InvalidConstruction,
}

} // verus!
