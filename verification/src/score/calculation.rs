use vstd::prelude::*;
use crate::play::contract::Contract;
use crate::player::axis::Axis;
use crate::score::tables::PointsSlam;

verus! {

/// Keeps the score of both axes over a series of deals.
pub trait ScoreTracker {
    /// Points of `axis`.
    spec fn spec_points(&self, axis: Axis) -> int;

    /// The axis ahead on points, none on a tie.
    fn winner_axis(&self) -> (r: Option<Axis>)
        ensures
            r == (if self.spec_points(Axis::NorthSouth) > self.spec_points(Axis::EastWest) {
                Some(Axis::NorthSouth)
            } else if self.spec_points(Axis::NorthSouth) < self.spec_points(Axis::EastWest) {
                Some(Axis::EastWest)
            } else {
                None::<Axis>
            }),
    ;

    fn points(&self, axis: &Axis) -> (r: i32)
        ensures
            r == self.spec_points(*axis),
    ;
}

/// One part of the score of a deal, computed from the contract, the tricks taken by the
/// declarer's axis and its vulnerability.
pub trait ScoreIngredient {
    spec fn ingredient(&self, contract: Contract, taken: nat, vulnerability: bool) -> int;

    fn calculate(&self, contract: &Contract, taken: u8, vulnerability: bool) -> (r: i32)
        ensures
            r == self.ingredient(*contract, taken as nat, vulnerability),
    ;
}

impl ScoreIngredient for PointsSlam {
    open spec fn ingredient(&self, contract: Contract, taken: nat, vulnerability: bool) -> int {
        self.spec_points(contract, taken, vulnerability)
    }

    fn calculate(&self, contract: &Contract, taken: u8, vulnerability: bool) -> (r: i32) {
        self.points(contract, taken, vulnerability)
    }
}

} // verus!
