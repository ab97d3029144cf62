use vstd::prelude::*;

verus! {

/// A partnership of two sides sitting opposite each other.
#[derive(Debug, Clone, Copy, PartialEq, Eq, Hash, Structural)]
pub enum Axis {
    NorthSouth,
    EastWest,
}

} // verus!
