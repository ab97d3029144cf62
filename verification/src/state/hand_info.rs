use vstd::prelude::*;
use crate::card::CardSet;

verus! {

/// What a player knows of its own hand.
pub trait HandInfo {
    spec fn spec_own_cards(&self) -> CardSet;

    fn own_cards(&self) -> (r: CardSet)
        ensures
            r == self.spec_own_cards(),
    ;
}

/// The knowledge of one's own cards and nothing more.
#[derive(Debug, Clone, Copy, PartialEq, Eq, Structural)]
pub struct HandInfoSimple {
    own_cards: CardSet,
}

impl HandInfoSimple {
    pub closed spec fn cards(self) -> CardSet {
        self.own_cards
    }

    pub fn new(cards: CardSet) -> (h: HandInfoSimple)
        ensures
            h.spec_own_cards() == cards,
    {
        HandInfoSimple { own_cards: cards }
    }
}

impl HandInfo for HandInfoSimple {
    open spec fn spec_own_cards(&self) -> CardSet {
        self.cards()
    }

    fn own_cards(&self) -> (r: CardSet) {
        self.own_cards
    }
}

} // verus!
