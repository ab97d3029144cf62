use vstd::prelude::*;
use crate::card::{Card, CardSet};
use crate::player::side::Side;

verus! {

/// A move in the play of a contract: the dummy shows the hand, or a card is placed.
#[derive(Debug, Clone, Copy, PartialEq, Eq, Structural)]
pub enum ContractAction {
    ShowHand(CardSet),
    PlaceCard(Card),
}

/// A move together with the side it is credited to.
#[derive(Debug, Clone, Copy, PartialEq, Eq, Structural)]
pub struct ContractStateUpdate {
    agent: Side,
    action: ContractAction,
}

impl ContractStateUpdate {
    pub closed spec fn spec_side(self) -> Side {
        self.agent
    }

    pub closed spec fn spec_action(self) -> ContractAction {
        self.action
    }

    pub closed spec fn spec_new(side: Side, action: ContractAction) -> ContractStateUpdate {
        ContractStateUpdate { agent: side, action }
    }

    pub fn new(side: Side, action: ContractAction) -> (u: ContractStateUpdate)
        ensures
            u == ContractStateUpdate::spec_new(side, action),
            u.spec_side() == side,
            u.spec_action() == action,
    {
        ContractStateUpdate { agent: side, action }
    }

    pub fn side(&self) -> (s: &Side)
        ensures
            *s == self.spec_side(),
    {
        &self.agent
    }

    pub fn action(&self) -> (a: &ContractAction)
        ensures
            *a == self.spec_action(),
    {
        &self.action
    }

    pub fn into_tuple(self) -> (t: (Side, ContractAction))
        ensures
            t == (self.spec_side(), self.spec_action()),
    {
        (self.agent, self.action)
    }
}

} // verus!
