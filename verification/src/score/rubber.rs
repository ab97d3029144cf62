use vstd::prelude::*;
use crate::play::deal::Deal;

verus! {

/// Points that win a game of a rubber.
pub const GAME_WINNING_POINTS: i32 = 100;

/// Games that win a rubber.
pub const RUBBER_WINNING_GAMES: i32 = 2;

/// A game of a rubber: the points that win it and the deals played in it.
#[derive(Debug, Clone, PartialEq, Eq)]
pub struct Game {
    winning_points: i64,
    contracts: Vec<Deal>,
}

impl Game {
    pub closed spec fn spec_winning_points(self) -> i64 {
        self.winning_points
    }

    pub closed spec fn deals(self) -> Seq<Deal> {
        self.contracts@
    }

    /// A game won at `winning_points`, no deal played yet.
    pub fn new(winning_points: i64) -> (g: Game)
        ensures
            g.spec_winning_points() == winning_points,
            g.deals() == Seq::<Deal>::empty(),
    {
        Game { winning_points, contracts: Vec::new() }
    }
}

} // verus!
