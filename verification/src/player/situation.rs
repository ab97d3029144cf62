use vstd::prelude::*;
use crate::card::{Card, CardSet};
use crate::play::card_trackers::CardUsageRegStd;
use crate::play::contract::Contract;
use crate::play::deal::{Deal, DealError};
use crate::player::side::Side;

verus! {

/// What one player knows during the play: its side, its hand, the dummy's hand once shown,
/// and the deal so far.
#[derive(Debug, Clone, PartialEq, Eq)]
pub struct Situation {
    side: Side,
    hand: CardSet,
    dummy_hand: CardSet,
    deal: Deal,
}

impl Situation {
    pub closed spec fn spec_side(self) -> Side {
        self.side
    }

    pub closed spec fn spec_hand(self) -> CardSet {
        self.hand
    }

    pub closed spec fn spec_dummy_hand(self) -> CardSet {
        self.dummy_hand
    }

    pub closed spec fn spec_deal(self) -> Deal {
        self.deal
    }

    /// The situation of the player at `side` holding `hand`, before the first card of a
    /// deal played under `contract`; the dummy's hand is not known yet.
    pub fn new(side: Side, hand: CardSet, contract: Contract) -> (s: Situation)
        ensures
            s.spec_side() == side,
            s.spec_hand() == hand,
            s.spec_dummy_hand().cards == 0,
            s.spec_deal().wf(),
            s.spec_deal().spec_contract() == contract,
            s.spec_deal().completed() == Seq::<crate::play::trick::Trick>::empty(),
            s.spec_deal().current() == crate::play::trick::Trick::empty_led_by(
                contract.spec_owner().spec_next(),
            ),
            s.spec_deal().used() == Set::<Card>::empty(),
    {
        Situation { side, hand, dummy_hand: CardSet::empty(), deal: Deal::new(contract) }
    }

    /// Records the dummy's hand once it is shown.
    pub fn set_dummy(&mut self, dummy_hand: CardSet)
        ensures
            final(self).spec_dummy_hand() == dummy_hand,
            final(self).spec_side() == old(self).spec_side(),
            final(self).spec_hand() == old(self).spec_hand(),
            final(self).spec_deal() == old(self).spec_deal(),
    {
        self.dummy_hand = dummy_hand;
    }

    /// Records `card` as played by the side due. Once the deal is over nothing is
    /// recorded and the deal is reported full; otherwise the deal answers as its
    /// `insert_card` does for the side due.
    pub fn mark_card_used(&mut self, card: Card) -> (r: Result<(), DealError>)
        requires
            old(self).spec_deal().wf(),
        ensures
            final(self).spec_deal().wf(),
            final(self).spec_side() == old(self).spec_side(),
            final(self).spec_hand() == old(self).spec_hand(),
            final(self).spec_dummy_hand() == old(self).spec_dummy_hand(),
            match old(self).spec_deal().spec_current_side() {
                None => r == Err::<(), DealError>(DealError::DealFull) && final(self).spec_deal()
                    == old(self).spec_deal(),
                Some(due) => {
                    &&& Deal::inserted(old(self).spec_deal(), final(self).spec_deal(), due, card)
                    &&& match old(self).spec_deal().insert_outcome(due, card) {
                        Ok(_) => r is Ok,
                        Err(e) => r == Err::<(), DealError>(e),
                    }
                },
            },
    {
        match self.deal.current_side() {
            Some(due) => match self.deal.insert_card(due, card) {
                Ok(_) => Ok(()),
                Err(e) => Err(e),
            },
            None => Err(DealError::DealFull),
        }
    }

    /// The cards of the player's hand.
    pub fn cards_hand(&self) -> (r: CardSet)
        ensures
            r == self.spec_hand(),
    {
        self.hand
    }

    /// The cards of the dummy's hand, empty until it is shown.
    pub fn cards_dummy(&self) -> (r: CardSet)
        ensures
            r == self.spec_dummy_hand(),
    {
        self.dummy_hand
    }

    pub fn side(&self) -> (r: Side)
        ensures
            r == self.spec_side(),
    {
        self.side
    }

    /// The cards of the completed tricks.
    pub fn used_cards(&self) -> (r: CardUsageRegStd)
        ensures
            r@ == self.spec_deal().used(),
    {
        self.deal.used_cards()
    }

    pub fn hand(&self) -> (r: &CardSet)
        ensures
            *r == self.spec_hand(),
    {
        &self.hand
    }

    pub fn dummy_hand(&self) -> (r: &CardSet)
        ensures
            *r == self.spec_dummy_hand(),
    {
        &self.dummy_hand
    }

    /// The side due to play, or none once the deal is over.
    pub fn current_side(&self) -> (r: Option<Side>)
        requires
            self.spec_deal().wf(),
        ensures
            r == self.spec_deal().spec_current_side(),
    {
        self.deal.current_side()
    }

    pub fn deal(&self) -> (r: &Deal)
        ensures
            *r == self.spec_deal(),
    {
        &self.deal
    }
}

} // verus!
