use vstd::prelude::*;
use crate::card::{CardError, CardSet};
use crate::error::BridgeCoreError;
use crate::play::deal::Deal;
use crate::player::side::Side;
use crate::state::action::{ContractAction, ContractStateUpdate};
use crate::state::actions::{actions_new, actions_of, actions_push, ActionList};

verus! {

/// The dummy's state in the play: its side, hand and the deal as seen so far.
#[derive(Debug, Clone, PartialEq, Eq)]
pub struct ContractDummyState {
    side: Side,
    hand: CardSet,
    contract: Deal,
}

impl ContractDummyState {
    pub closed spec fn spec_side(self) -> Side {
        self.side
    }

    pub closed spec fn spec_hand(self) -> CardSet {
        self.hand
    }

    pub closed spec fn spec_contract(self) -> Deal {
        self.contract
    }

    pub open spec fn wf(self) -> bool {
        self.spec_contract().wf()
    }

    pub fn new(side: Side, hand: CardSet, contract: Deal) -> (s: Self)
        ensures
            s.spec_side() == side,
            s.spec_hand() == hand,
            s.spec_contract() == contract,
    {
        ContractDummyState { side, hand, contract }
    }

    /// Applies an update: a shown hand changes nothing; a placed card is inserted into the
    /// deal for the side that sent it, and taken out of the dummy's hand when that side is
    /// the dummy.
    pub fn update(&mut self, update: ContractStateUpdate) -> (r: Result<(), BridgeCoreError>)
        requires
            old(self).wf(),
        ensures
            final(self).wf(),
            final(self).spec_side() == old(self).spec_side(),
            match update.spec_action() {
                ContractAction::ShowHand(_) => r is Ok && *final(self) == *old(self),
                ContractAction::PlaceCard(card) => {
                    let out = old(self).spec_contract().insert_outcome(update.spec_side(), card);
                    &&& Deal::inserted(
                        old(self).spec_contract(),
                        final(self).spec_contract(),
                        update.spec_side(),
                        card,
                    )
                    &&& out matches Err(e) ==> r == Err::<(), BridgeCoreError>(
                        BridgeCoreError::Deal(e),
                    ) && final(self).spec_hand() == old(self).spec_hand()
                    &&& out is Ok ==> if update.spec_side() == old(self).spec_side() {
                        if old(self).spec_hand().has(card) {
                            r is Ok && final(self).spec_hand() == old(self).spec_hand().without(card)
                        } else {
                            r == Err::<(), BridgeCoreError>(
                                BridgeCoreError::Hand(CardError::CardNotInSet(card)),
                            ) && final(self).spec_hand() == old(self).spec_hand()
                        }
                    } else {
                        r is Ok && final(self).spec_hand() == old(self).spec_hand()
                    }
                },
            },
    {
        let (side, action) = update.into_tuple();
        match action {
            ContractAction::ShowHand(_) => Ok(()),
            ContractAction::PlaceCard(card) => {
                match self.contract.insert_card(side, card) {
                    Ok(_) => {},
                    Err(e) => {
                        return Err(BridgeCoreError::Deal(e));
                    },
                }
                if side == self.side {
                    match self.hand.remove_card(&card) {
                        Ok(()) => {},
                        Err(e) => {
                            return Err(BridgeCoreError::Hand(e));
                        },
                    }
                }
                Ok(())
            },
        }
    }

    /// Whether all thirteen tricks are played.
    pub fn is_finished(&self) -> (r: bool)
        requires
            self.wf(),
        ensures
            r == (self.spec_contract().completed().len() == 13),
    {
        self.contract.is_completed()
    }

    pub fn id(&self) -> (s: &Side)
        ensures
            *s == self.spec_side(),
    {
        &self.side
    }

    /// The dummy's only move: showing its hand when it is due.
    pub fn available_actions(&self) -> (r: ActionList)
        ensures
            self.spec_contract().current().side_in_order() == self.spec_side() ==> actions_of(r)
                == seq![ContractAction::ShowHand(self.spec_hand())],
            self.spec_contract().current().side_in_order() != self.spec_side() ==> actions_of(r).len()
                == 0,
    {
        let mut v = actions_new();
        if self.contract.current_turn() == self.side {
            actions_push(&mut v, ContractAction::ShowHand(self.hand));
        }
        v
    }

    /// The dummy may only show its hand.
    pub fn is_action_valid(&self, action: &ContractAction) -> (r: bool)
        ensures
            r == (*action is ShowHand),
    {
        match action {
            ContractAction::ShowHand(_) => true,
            ContractAction::PlaceCard(_) => false,
        }
    }
}

} // verus!
