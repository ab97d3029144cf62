use vstd::prelude::*;
use crate::card::{Card, CardError, CardSet};
use crate::error::BridgeCoreError;
use crate::play::deal::Deal;
use crate::player::side::Side;
use crate::player::side_map::SideMap;
use crate::state::action::{ContractAction, ContractStateUpdate};

verus! {

/// A state of the play that knows the dummy and the side due to play.
pub trait ContractState {
    spec fn spec_dummy_side(&self) -> Side;

    spec fn spec_current_side(&self) -> Side;

    fn dummy_side(&self) -> (s: Side)
        ensures
            s == self.spec_dummy_side(),
    ;

    fn current_side(&self) -> (s: Side)
        ensures
            s == self.spec_current_side(),
    ;

    /// Whether the dummy is due to play.
    fn is_turn_of_dummy(&self) -> (r: bool)
        ensures
            r == (self.spec_dummy_side() == self.spec_current_side()),
    {
        self.dummy_side() == self.current_side()
    }
}

/// The side a placed card is played for: when the dummy is due, a card sent by the
/// declarer is the dummy's card.
pub open spec fn acting_side(deal: Deal, side: Side) -> Side {
    let dummy = deal.spec_contract().spec_owner().spec_partner();
    if dummy == deal.current().side_in_order() && side == dummy.spec_partner() {
        dummy
    } else {
        side
    }
}

pub fn acting_side_exec(deal: &Deal, side: Side) -> (s: Side)
    ensures
        s == acting_side(*deal, side),
{
    let dummy = deal.dummy();
    if dummy == deal.current_turn() && side == dummy.partner() {
        dummy
    } else {
        side
    }
}

/// The environment's state of the play: the contract being played and the dummy's hand
/// once shown.
#[derive(Debug, Clone, PartialEq, Eq)]
pub struct ContractEnvStateMin {
    dummy_hand: Option<CardSet>,
    contract: Deal,
}

impl ContractEnvStateMin {
    pub closed spec fn spec_dummy_hand(self) -> Option<CardSet> {
        self.dummy_hand
    }

    pub closed spec fn spec_contract(self) -> Deal {
        self.contract
    }

    pub open spec fn wf(self) -> bool {
        self.spec_contract().wf()
    }

    pub open spec fn dummy(self) -> Side {
        self.spec_contract().spec_contract().spec_owner().spec_partner()
    }

    /// Updates that are accepted: no hand shown by a side other than the dummy, nor
    /// shown a second time.
    pub open spec fn update_allowed(self, update: ContractStateUpdate) -> bool {
        update.spec_action() is ShowHand ==> update.spec_side() == self.dummy()
            && self.spec_dummy_hand() is None
    }

    /// The player the environment waits for: none after the last trick; when the dummy is
    /// due, the dummy until the hand is shown and the declarer afterwards.
    pub open spec fn spec_current_player(self) -> Option<Side> {
        if self.spec_contract().completed().len() == 13 {
            None
        } else if self.dummy() == self.spec_contract().current().side_in_order() {
            if self.spec_dummy_hand() is None {
                Some(self.dummy())
            } else {
                Some(self.dummy().spec_partner())
            }
        } else {
            Some(self.spec_contract().current().side_in_order())
        }
    }

    /// The update that an action of `agent` makes: when the dummy is due and `agent` is the
    /// player awaited, the action is credited to the dummy.
    pub open spec fn update_for(self, agent: Side, action: ContractAction) -> ContractStateUpdate {
        if self.dummy() == self.spec_contract().current().side_in_order()
            && self.spec_current_player() == Some(agent) {
            ContractStateUpdate::spec_new(self.dummy(), action)
        } else {
            ContractStateUpdate::spec_new(agent, action)
        }
    }

    /// How the state `post` after applying `u` relates to `pre`, with answer `r`: a shown
    /// hand is recorded as the dummy's; a placed card is inserted into the deal for the side
    /// it is played for, and taken out of the dummy's hand when the dummy itself sent it.
    pub open spec fn updated(pre: Self, post: Self, u: ContractStateUpdate, r: Result<(), BridgeCoreError>) -> bool {
        match u.spec_action() {
            ContractAction::ShowHand(h) => r is Ok && post.spec_dummy_hand() == Some(h)
                && post.spec_contract() == pre.spec_contract(),
            ContractAction::PlaceCard(card) => {
                let actual = acting_side(pre.spec_contract(), u.spec_side());
                let out = pre.spec_contract().insert_outcome(actual, card);
                &&& Deal::inserted(
                    pre.spec_contract(),
                    post.spec_contract(),
                    actual,
                    card,
                )
                &&& out matches Err(e) ==> r == Err::<(), BridgeCoreError>(
                    BridgeCoreError::Deal(e),
                ) && post.spec_dummy_hand() == pre.spec_dummy_hand()
                &&& out is Ok ==> match pre.spec_dummy_hand() {
                    Some(dh) => if u.spec_side() == pre.dummy() {
                        if dh.has(card) {
                            r is Ok && post.spec_dummy_hand() == Some(dh.without(card))
                        } else {
                            r == Err::<(), BridgeCoreError>(
                                BridgeCoreError::Hand(CardError::CardNotInSet(card)),
                            ) && post.spec_dummy_hand() == pre.spec_dummy_hand()
                        }
                    } else {
                        r is Ok && post.spec_dummy_hand() == pre.spec_dummy_hand()
                    },
                    None => r is Ok && post.spec_dummy_hand() is None,
                }
            },
        }
    }

    pub fn new(contract: Deal, dummy_hand: Option<CardSet>) -> (s: ContractEnvStateMin)
        ensures
            s.spec_contract() == contract,
            s.spec_dummy_hand() == dummy_hand,
    {
        ContractEnvStateMin { dummy_hand, contract }
    }

    pub fn dummy_hand(&self) -> (h: Option<&CardSet>)
        ensures
            match self.spec_dummy_hand() {
                Some(d) => h == Some(&d),
                None => h is None,
            },
    {
        self.dummy_hand.as_ref()
    }

    pub fn contract(&self) -> (d: &Deal)
        ensures
            *d == self.spec_contract(),
    {
        &self.contract
    }

    /// Applies an update: a shown hand is recorded as the dummy's; a placed card is
    /// inserted into the deal for the side it is played for, and taken out of the dummy's
    /// hand when the dummy itself sent it.
    pub fn update(&mut self, update: ContractStateUpdate) -> (r: Result<(), BridgeCoreError>)
        requires
            old(self).wf(),
            old(self).update_allowed(update),
        ensures
            final(self).wf(),
            ContractEnvStateMin::updated(*old(self), *final(self), update, r),
    {
        let (side, action) = update.into_tuple();
        match action {
            ContractAction::ShowHand(dhand) => {
                self.dummy_hand = Some(dhand);
                Ok(())
            },
            ContractAction::PlaceCard(card) => {
                let actual_side = acting_side_exec(&self.contract, side);
                match self.contract.insert_card(actual_side, card) {
                    Ok(_) => {},
                    Err(e) => {
                        return Err(BridgeCoreError::Deal(e));
                    },
                }
                if side == self.contract.dummy() {
                    if let Some(mut dh) = self.dummy_hand {
                        match dh.remove_card(&card) {
                            Ok(()) => {
                                self.dummy_hand = Some(dh);
                            },
                            Err(e) => {
                                return Err(BridgeCoreError::Hand(e));
                            },
                        }
                    }
                }
                Ok(())
            },
        }
    }

    /// Whether all thirteen tricks are played.
    pub fn is_finished(&self) -> (r: bool)
        requires
            self.wf(),
        ensures
            r == (self.spec_contract().completed().len() == 13),
    {
        self.contract.is_completed()
    }

    /// The player the environment waits for.
    pub fn current_player(&self) -> (r: Option<Side>)
        requires
            self.wf(),
        ensures
            r == self.spec_current_player(),
    {
        if self.contract.is_completed() {
            None
        } else if self.contract.dummy() == self.contract.current_turn() {
            match self.dummy_hand {
                None => Some(self.contract.dummy()),
                Some(_) => Some(self.contract.dummy().partner()),
            }
        } else {
            Some(self.contract.current_turn())
        }
    }

    /// Applies the action of `agent` and returns the update to broadcast to every side.
    pub fn process_action(&mut self, agent: Side, action: ContractAction) -> (r: Result<
        ContractStateUpdate,
        BridgeCoreError,
    >)
        requires
            old(self).wf(),
            old(self).update_allowed(old(self).update_for(agent, action)),
        ensures
            final(self).wf(),
            r matches Ok(u) ==> u == old(self).update_for(agent, action),
            ContractEnvStateMin::updated(
                *old(self),
                *final(self),
                old(self).update_for(agent, action),
                match r {
                    Ok(_) => Ok::<(), BridgeCoreError>(()),
                    Err(e) => Err(e),
                },
            ),
    {
        let state_update = if self.is_turn_of_dummy() && Some(agent) == self.current_player() {
            ContractStateUpdate::new(self.dummy_side(), action)
        } else {
            ContractStateUpdate::new(agent, action)
        };
        match self.update(state_update) {
            Ok(()) => Ok(state_update),
            Err(e) => Err(e),
        }
    }
}

impl ContractState for ContractEnvStateMin {
    open spec fn spec_dummy_side(&self) -> Side {
        self.dummy()
    }

    open spec fn spec_current_side(&self) -> Side {
        self.spec_contract().current().side_in_order()
    }

    fn dummy_side(&self) -> (s: Side) {
        self.contract.dummy()
    }

    fn current_side(&self) -> (s: Side) {
        self.contract.current_turn()
    }
}

/// Every side paired with update `u`, in the order north, east, south, west.
pub open spec fn to_every_side(u: ContractStateUpdate) -> Seq<(Side, ContractStateUpdate)> {
    seq![(Side::North, u), (Side::East, u), (Side::South, u), (Side::West, u)]
}

/// The environment of the play: its state and the penalty points given to each side for
/// illegal actions. The connections to the players are kept by the caller.
#[derive(Debug, Clone, PartialEq, Eq)]
pub struct ContractEnv {
    state: ContractEnvStateMin,
    penalties: SideMap<i32>,
}

impl ContractEnv {
    pub closed spec fn spec_state(self) -> ContractEnvStateMin {
        self.state
    }

    pub closed spec fn spec_penalties(self) -> SideMap<i32> {
        self.penalties
    }

    /// An environment in state `state`, no side penalised yet.
    pub fn new(state: ContractEnvStateMin) -> (e: ContractEnv)
        ensures
            e.spec_state() == state,
            e.spec_penalties() == SideMap::uniform(0i32),
    {
        ContractEnv { state, penalties: SideMap::new_symmetric(0) }
    }

    /// Replaces the state; the penalties stay.
    pub fn replace_state(&mut self, state: ContractEnvStateMin)
        ensures
            final(self).spec_state() == state,
            final(self).spec_penalties() == old(self).spec_penalties(),
    {
        self.state = state;
    }

    pub fn state(&self) -> (s: &ContractEnvStateMin)
        ensures
            *s == self.spec_state(),
    {
        &self.state
    }

    /// Applies the action of `agent` (credited to the dummy when the dummy is due and
    /// `agent` is awaited) and returns the update for every side.
    pub fn process_action(&mut self, agent: Side, action: ContractAction) -> (r: Result<
        [(Side, ContractStateUpdate); 4],
        BridgeCoreError,
    >)
        requires
            old(self).spec_state().wf(),
            old(self).spec_state().update_allowed(old(self).spec_state().update_for(agent, action)),
        ensures
            final(self).spec_state().wf(),
            final(self).spec_penalties() == old(self).spec_penalties(),
            r matches Ok(a) ==> a@ == to_every_side(old(self).spec_state().update_for(agent, action)),
            ContractEnvStateMin::updated(
                old(self).spec_state(),
                final(self).spec_state(),
                old(self).spec_state().update_for(agent, action),
                match r {
                    Ok(_) => Ok::<(), BridgeCoreError>(()),
                    Err(e) => Err(e),
                },
            ),
    {
        match self.state.process_action(agent, action) {
            Ok(u) => Ok([(Side::North, u), (Side::East, u), (Side::South, u), (Side::West, u)]),
            Err(e) => Err(e),
        }
    }

    /// As `process_action`, and an action that the state refuses adds `penalty_reward` to
    /// the penalty points of `agent`.
    pub fn process_action_penalise_illegal(
        &mut self,
        agent: Side,
        action: ContractAction,
        penalty_reward: i32,
    ) -> (r: Result<[(Side, ContractStateUpdate); 4], BridgeCoreError>)
        requires
            old(self).spec_state().wf(),
            old(self).spec_state().update_allowed(old(self).spec_state().update_for(agent, action)),
            i32::MIN <= old(self).spec_penalties().at(agent) + penalty_reward <= i32::MAX,
        ensures
            final(self).spec_state().wf(),
            r matches Ok(a) ==> a@ == to_every_side(old(self).spec_state().update_for(agent, action)),
            r is Ok ==> final(self).spec_penalties() == old(self).spec_penalties(),
            r is Err ==> final(self).spec_penalties() == old(self).spec_penalties().with(
                agent,
                (old(self).spec_penalties().at(agent) + penalty_reward) as i32,
            ),
            ContractEnvStateMin::updated(
                old(self).spec_state(),
                final(self).spec_state(),
                old(self).spec_state().update_for(agent, action),
                match r {
                    Ok(_) => Ok::<(), BridgeCoreError>(()),
                    Err(e) => Err(e),
                },
            ),
    {
        match self.state.process_action(agent, action) {
            Ok(u) => Ok([(Side::North, u), (Side::East, u), (Side::South, u), (Side::West, u)]),
            Err(e) => {
                let p = *self.penalties.get(&agent) + penalty_reward;
                self.penalties.set(&agent, p);
                Err(e)
            },
        }
    }

    /// The penalty points of `agent`.
    pub fn actual_penalty_score_of_player(&self, agent: &Side) -> (r: i32)
        ensures
            r == self.spec_penalties().at(*agent),
    {
        *self.penalties.get(agent)
    }
}

} // verus!
