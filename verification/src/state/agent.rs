use vstd::prelude::*;
use crate::card::{card_pos, Card, CardError, CardSet, Suit};
use crate::error::BridgeCoreError;
use crate::play::deal::{count_taken_axis, law_insert_deterministic, Deal};
use crate::play::trick::Trick;
use crate::player::side::Side;
use crate::state::action::{ContractAction, ContractStateUpdate};
use crate::state::actions::{actions_new, actions_of, actions_push, ActionList};
use crate::state::env::{acting_side, acting_side_exec, ContractEnvStateMin};

verus! {

/// The suit led in trick `t`, if any.
pub open spec fn led_suit(t: Trick) -> Option<Suit> {
    match t.slot(t.first()) {
        Some(c) => Some(c.suit),
        None => None,
    }
}

/// Whether hand `h` holds a card of suit `s`.
pub open spec fn has_suit(h: CardSet, s: Suit) -> bool {
    exists|c: Card| h.has(c) && c.suit == s
}

/// Whether playing `c` from hand `h` follows suit in trick `t`: when a suit was led and the
/// hand holds it, the card must be of that suit.
pub open spec fn follows_suit(t: Trick, h: CardSet, c: Card) -> bool {
    match led_suit(t) {
        None => true,
        Some(s) => has_suit(h, s) ==> c.suit == s,
    }
}

/// A player's information set in the play of a contract: its side and hand, the dummy's
/// hand once shown, and the deal as seen so far.
#[derive(Debug, Clone, PartialEq, Eq)]
pub struct ContractAgentInfoSetSimple {
    side: Side,
    hand: CardSet,
    dummy_hand: Option<CardSet>,
    contract: Deal,
}

/// The information set of a player in the play: the same as the simple one.
pub type ContractAgentStateMin = ContractAgentInfoSetSimple;

impl ContractAgentInfoSetSimple {
    pub closed spec fn spec_side(self) -> Side {
        self.side
    }

    pub closed spec fn spec_hand(self) -> CardSet {
        self.hand
    }

    pub closed spec fn spec_dummy_hand(self) -> Option<CardSet> {
        self.dummy_hand
    }

    pub closed spec fn spec_contract(self) -> Deal {
        self.contract
    }

    pub open spec fn wf(self) -> bool {
        self.spec_contract().wf()
    }

    pub open spec fn dummy(self) -> Side {
        self.spec_contract().spec_contract().spec_owner().spec_partner()
    }

    /// The side due to play.
    pub open spec fn turn(self) -> Side {
        self.spec_contract().current().side_in_order()
    }

    /// The hand this player plays from now: its own when it is due, the dummy's (once
    /// shown) when it is the declarer and the dummy is due, none otherwise.
    pub open spec fn playable_hand(self) -> Option<CardSet> {
        if self.turn() == self.spec_side() {
            Some(self.spec_hand())
        } else if self.turn() == self.spec_side().spec_partner() && self.turn() == self.dummy() {
            self.spec_dummy_hand()
        } else {
            None
        }
    }

    /// Whether `available_actions` offers action `a`: a card of the playable hand that
    /// follows suit.
    pub open spec fn offers(self, a: ContractAction) -> bool {
        match a {
            ContractAction::PlaceCard(c) => match self.playable_hand() {
                Some(h) => h.has(c) && follows_suit(self.spec_contract().current(), h, c),
                None => false,
            },
            ContractAction::ShowHand(_) => false,
        }
    }

    /// Whether `is_action_valid` accepts action `a`: the dummy may show its hand; a card must
    /// be in this player's hand and follow suit.
    pub open spec fn allows(self, a: ContractAction) -> bool {
        match a {
            ContractAction::ShowHand(_) => self.dummy() == self.spec_side(),
            ContractAction::PlaceCard(c) => self.spec_hand().has(c) && follows_suit(
                self.spec_contract().current(),
                self.spec_hand(),
                c,
            ),
        }
    }

    /// Updates that are accepted: no hand shown by a side other than the dummy, nor
    /// shown a second time.
    pub open spec fn update_allowed(self, u: ContractStateUpdate) -> bool {
        u.spec_action() is ShowHand ==> u.spec_side() == self.dummy() && self.spec_dummy_hand()
            is None
    }

    /// How the information set `post` after applying `u` relates to `pre`, with answer `r`:
    /// a shown hand is recorded as the dummy's; a placed card is inserted into the deal for
    /// the side it is played for, then removed from this player's hand when that side is
    /// this player, and from the dummy's hand (if known) when that side is the dummy.
    pub open spec fn updated(pre: Self, post: Self, u: ContractStateUpdate, r: Result<(), BridgeCoreError>) -> bool {
        &&& post.spec_side() == pre.spec_side()
        &&& match u.spec_action() {
            ContractAction::ShowHand(h) => r is Ok && post.spec_dummy_hand() == Some(h)
                && post.spec_contract() == pre.spec_contract() && post.spec_hand() == pre.spec_hand(),
            ContractAction::PlaceCard(card) => {
                let actual = acting_side(pre.spec_contract(), u.spec_side());
                let out = pre.spec_contract().insert_outcome(actual, card);
                let own = actual == pre.spec_side();
                let own_fails = own && !pre.spec_hand().has(card);
                let dummy_removal = actual == pre.dummy() && pre.spec_dummy_hand() is Some;
                &&& Deal::inserted(pre.spec_contract(), post.spec_contract(), actual, card)
                &&& out matches Err(e) ==> r == Err::<(), BridgeCoreError>(BridgeCoreError::Deal(e))
                    && post.spec_hand() == pre.spec_hand() && post.spec_dummy_hand()
                    == pre.spec_dummy_hand()
                &&& out is Ok ==> {
                    &&& post.spec_hand() == if own && !own_fails {
                        pre.spec_hand().without(card)
                    } else {
                        pre.spec_hand()
                    }
                    &&& own_fails ==> r == Err::<(), BridgeCoreError>(
                        BridgeCoreError::Hand(CardError::CardNotInSet(card)),
                    ) && post.spec_dummy_hand() == pre.spec_dummy_hand()
                    &&& !own_fails ==> if dummy_removal {
                        let dh = pre.spec_dummy_hand().unwrap();
                        if dh.has(card) {
                            r is Ok && post.spec_dummy_hand() == Some(dh.without(card))
                        } else {
                            r == Err::<(), BridgeCoreError>(
                                BridgeCoreError::Hand(CardError::CardNotInSet(card)),
                            ) && post.spec_dummy_hand() == pre.spec_dummy_hand()
                        }
                    } else {
                        r is Ok && post.spec_dummy_hand() == pre.spec_dummy_hand()
                    }
                }
            },
        }
    }

    pub fn new(side: Side, hand: CardSet, contract: Deal, dummy_hand: Option<CardSet>) -> (s: Self)
        ensures
            s.spec_side() == side,
            s.spec_hand() == hand,
            s.spec_contract() == contract,
            s.spec_dummy_hand() == dummy_hand,
    {
        ContractAgentInfoSetSimple { side, hand, dummy_hand, contract }
    }

    pub fn side(&self) -> (s: Side)
        ensures
            s == self.spec_side(),
    {
        self.side
    }

    pub fn hand(&self) -> (h: CardSet)
        ensures
            h == self.spec_hand(),
    {
        self.hand
    }

    pub fn dummy_hand(&self) -> (h: Option<CardSet>)
        ensures
            h == self.spec_dummy_hand(),
    {
        self.dummy_hand
    }

    pub fn contract(&self) -> (d: &Deal)
        ensures
            *d == self.spec_contract(),
    {
        &self.contract
    }

    /// Applies an update of the play to the information set.
    pub fn update(&mut self, update: ContractStateUpdate) -> (r: Result<(), BridgeCoreError>)
        requires
            old(self).wf(),
            old(self).update_allowed(update),
        ensures
            final(self).wf(),
            ContractAgentInfoSetSimple::updated(*old(self), *final(self), update, r),
    {
        let (side, action) = update.into_tuple();
        match action {
            ContractAction::ShowHand(dhand) => {
                self.dummy_hand = Some(dhand);
                Ok(())
            },
            ContractAction::PlaceCard(card) => {
                let actual_side = acting_side_exec(&self.contract, side);
                match self.contract.insert_card(actual_side, card) {
                    Ok(_) => {},
                    Err(e) => {
                        return Err(BridgeCoreError::Deal(e));
                    },
                }
                if actual_side == self.side {
                    match self.hand.remove_card(&card) {
                        Ok(()) => {},
                        Err(e) => {
                            return Err(BridgeCoreError::Hand(e));
                        },
                    }
                }
                if actual_side == self.contract.dummy() {
                    if let Some(mut dh) = self.dummy_hand {
                        match dh.remove_card(&card) {
                            Ok(()) => {
                                self.dummy_hand = Some(dh);
                            },
                            Err(e) => {
                                return Err(BridgeCoreError::Hand(e));
                            },
                        }
                    }
                }
                Ok(())
            },
        }
    }

    /// Whether all thirteen tricks are played.
    pub fn is_finished(&self) -> (r: bool)
        requires
            self.wf(),
        ensures
            r == (self.spec_contract().completed().len() == 13),
    {
        self.contract.is_completed()
    }

    pub fn id(&self) -> (s: &Side)
        ensures
            *s == self.spec_side(),
    {
        &self.side
    }

    /// The cards this player may place now, in deck order: from the playable hand, only the
    /// led suit when the hand holds it.
    pub fn available_actions(&self) -> (r: ActionList)
        requires
            self.wf(),
        ensures
            forall|a: ContractAction| #[trigger] actions_of(r).contains(a) <==> self.offers(a),
            forall|i: int, j: int|
                0 <= i < j < actions_of(r).len() ==> actions_of(r)[i] is PlaceCard && actions_of(r)[j] is PlaceCard && card_pos(
                    actions_of(r)[i]->PlaceCard_0,
                ) < card_pos(actions_of(r)[j]->PlaceCard_0),
    {
        let turn = self.contract.current_turn();
        let hand_opt = if turn == self.side {
            Some(self.hand)
        } else if turn == self.side.partner() && turn == self.contract.dummy() {
            self.dummy_hand
        } else {
            None
        };
        let mut result = actions_new();
        assert(hand_opt == self.playable_hand());
        match hand_opt {
            None => {
                proof {
                    assert forall|a: ContractAction| !#[trigger] actions_of(result).contains(a) by {}
                }
                result
            },
            Some(h) => {
                let cards = h.to_vec();
                let restrict: Option<Suit> = match self.contract.current_trick().called_suit() {
                    Some(s) => if h.contains_in_suit(&s) {
                        Some(s)
                    } else {
                        None
                    },
                    None => None,
                };
                let ghost led = led_suit(self.spec_contract().current());
                assert(restrict matches Some(s) ==> led == Some(s) && has_suit(h, s));
                assert(restrict is None ==> (led is None || !has_suit(h, led.unwrap())));
                let mut i: usize = 0;
                while i < cards.len()
                    invariant
                        i <= cards@.len(),
                        actions_of(result).len() <= i,
                        forall|c: Card| #[trigger] cards@.contains(c) <==> h.has(c),
                        forall|x: int, y: int|
                            0 <= x < y < cards@.len() ==> card_pos(cards@[x]) < card_pos(cards@[y]),
                        forall|a: ContractAction| #[trigger] actions_of(result).contains(a) <==> match a {
                            ContractAction::PlaceCard(c) => exists|k: int|
                                0 <= k < i && cards@[k] == c && match restrict {
                                    Some(s) => c.suit == s,
                                    None => true,
                                },
                            ContractAction::ShowHand(_) => false,
                        },
                        forall|x: int| 0 <= x < actions_of(result).len() ==> #[trigger] actions_of(result)[x] is PlaceCard,
                        forall|x: int, y: int|
                            0 <= x < y < actions_of(result).len() ==> card_pos(actions_of(result)[x]->PlaceCard_0)
                                < card_pos(actions_of(result)[y]->PlaceCard_0),
                        forall|x: int, k: int|
                            #![trigger actions_of(result)[x], cards@[k]]
                            0 <= x < actions_of(result).len() && i <= k < cards@.len() ==> card_pos(
                                actions_of(result)[x]->PlaceCard_0,
                            ) < card_pos(cards@[k]),
                    decreases cards@.len() - i,
                {
                    let c = cards[i];
                    let keep = match restrict {
                        Some(s) => c.suit == s,
                        None => true,
                    };
                    let ghost old_result = actions_of(result);
                    if keep {
                        actions_push(&mut result, ContractAction::PlaceCard(c));
                    }
                    proof {
                        assert forall|a: ContractAction| #[trigger] actions_of(result).contains(a) <==> match a {
                            ContractAction::PlaceCard(d) => exists|k: int|
                                0 <= k < i + 1 && cards@[k] == d && match restrict {
                                    Some(s) => d.suit == s,
                                    None => true,
                                },
                            ContractAction::ShowHand(_) => false,
                        } by {
                            if keep && a == ContractAction::PlaceCard(c) {
                                assert(actions_of(result)[actions_of(result).len() - 1] == a);
                            }
                            if old_result.contains(a) {
                                let x = choose|x: int| 0 <= x < old_result.len() && old_result[x] == a;
                                assert(actions_of(result)[x] == a);
                            }
                            if actions_of(result).contains(a) && a != ContractAction::PlaceCard(c) {
                                let x = choose|x: int| 0 <= x < actions_of(result).len() && actions_of(result)[x] == a;
                                assert(old_result[x] == a);
                            }
                            match a {
                                ContractAction::PlaceCard(d) => {
                                    if d == c {
                                        assert(cards@[i as int] == d);
                                    }
                                    if exists|k: int| 0 <= k < i + 1 && cards@[k] == d && match restrict {
                                        Some(s) => d.suit == s,
                                        None => true,
                                    } {
                                        let k = choose|k: int| 0 <= k < i + 1 && cards@[k] == d && match restrict {
                                            Some(s) => d.suit == s,
                                            None => true,
                                        };
                                        if k == i {
                                            assert(d == c);
                                        }
                                    }
                                },
                                ContractAction::ShowHand(_) => {},
                            }
                        }
                    }
                    i = i + 1;
                }
                proof {
                    assert forall|a: ContractAction| #[trigger] actions_of(result).contains(a) <==> self.offers(a) by {
                        assert(restrict matches Some(s) ==> led == Some(s) && has_suit(h, s));
                        assert(restrict is None ==> (led is None || !has_suit(h, led.unwrap())));
                        match a {
                            ContractAction::PlaceCard(d) => {
                                if h.has(d) {
                                    assert(cards@.contains(d));
                                    let k = choose|k: int| 0 <= k < cards@.len() && cards@[k] == d;
                                    assert(cards@[k] == d);
                                }
                                if actions_of(result).contains(a) {
                                    let k = choose|k: int| 0 <= k < i && cards@[k] == d && match restrict {
                                        Some(s) => d.suit == s,
                                        None => true,
                                    };
                                    assert(cards@.contains(cards@[k]));
                                    assert(h.has(d));
                                    assert(follows_suit(self.spec_contract().current(), h, d));
                                }
                            },
                            ContractAction::ShowHand(_) => {},
                        }
                    }
                }
                result
            },
        }
    }

    /// Whether this player may take the action: the dummy may show its hand; a card must be
    /// in this player's hand and follow suit.
    pub fn is_action_valid(&self, action: &ContractAction) -> (r: bool)
        requires
            self.wf(),
        ensures
            r == self.allows(*action),
    {
        match action {
            ContractAction::ShowHand(_) => self.contract.dummy() == self.side,
            ContractAction::PlaceCard(c) => {
                if self.hand.contains(c) {
                    match self.contract.current_trick().called_suit() {
                        None => true,
                        Some(s) => {
                            if s == c.suit {
                                true
                            } else {
                                !self.hand.contains_in_suit(&s)
                            }
                        },
                    }
                } else {
                    false
                }
            },
        }
    }

    /// Tricks taken so far by this player's axis.
    pub fn current_score(&self) -> (r: u32)
        requires
            self.wf(),
        ensures
            r == count_taken_axis(
                self.spec_contract().completed(),
                self.spec_contract().spec_trump(),
                self.spec_side().spec_axis(),
            ),
    {
        let n = self.contract.tricks_taken_axis(self.side.axis());
        proof {
            crate::play::deal::lemma_count_taken_axis_bound(
                self.spec_contract().completed(),
                self.spec_contract().spec_trump(),
                self.spec_side().spec_axis(),
            );
        }
        n as u32
    }
}

/// On the player's own turn the cards offered are exactly the card actions it may take:
/// `available_actions` and `is_action_valid` agree on every card.
pub proof fn law_offered_cards_are_valid(st: ContractAgentInfoSetSimple, c: Card)
    requires
        st.turn() == st.spec_side(),
    ensures
        st.offers(ContractAction::PlaceCard(c)) == st.allows(ContractAction::PlaceCard(c)),
{
}

/// The environment and a player that start from the same deal and apply the same update
/// end with the same deal: the same contract, tricks, used cards and exhaustion table.
pub proof fn law_player_follows_environment(
    env_pre: ContractEnvStateMin,
    env_post: ContractEnvStateMin,
    env_r: Result<(), BridgeCoreError>,
    pre: ContractAgentInfoSetSimple,
    post: ContractAgentInfoSetSimple,
    r: Result<(), BridgeCoreError>,
    u: ContractStateUpdate,
)
    requires
        env_pre.wf(),
        env_pre.spec_contract() == pre.spec_contract(),
        ContractEnvStateMin::updated(env_pre, env_post, u, env_r),
        ContractAgentInfoSetSimple::updated(pre, post, u, r),
    ensures
        env_post.spec_contract().spec_contract() == post.spec_contract().spec_contract(),
        env_post.spec_contract().completed() == post.spec_contract().completed(),
        env_post.spec_contract().current() == post.spec_contract().current(),
        env_post.spec_contract().used() == post.spec_contract().used(),
        forall|s: Side, x: Suit| #[trigger]
            env_post.spec_contract().exhaust().exhausted(s, x) == post.spec_contract().exhaust().exhausted(
                s,
                x,
            ),
{
    match u.spec_action() {
        ContractAction::PlaceCard(card) => {
            law_insert_deterministic(
                pre.spec_contract(),
                env_post.spec_contract(),
                post.spec_contract(),
                acting_side(pre.spec_contract(), u.spec_side()),
                card,
            );
        },
        ContractAction::ShowHand(_) => {},
    }
}

/// The cards a player is offered come from the hand it plays for now: its own hand when it
/// is due; the dummy's shown hand when it is the declarer and the dummy is due (nothing
/// before that hand is shown); nothing on any other side's turn. From that hand exactly
/// the cards that follow suit are offered, and showing a hand is never offered.
pub proof fn law_offered_cards_come_from_the_hand_played(st: ContractAgentInfoSetSimple, c: Card)
    ensures
        ({
            let due = st.spec_contract().current().side_in_order();
            let declarer = st.spec_contract().spec_contract().spec_owner();
            let trick = st.spec_contract().current();
            let offered = st.offers(ContractAction::PlaceCard(c));
            &&& due == st.spec_side() ==> (offered <==> st.spec_hand().has(c) && follows_suit(
                trick,
                st.spec_hand(),
                c,
            ))
            &&& (due != st.spec_side() && st.spec_side() == declarer && due
                == declarer.spec_partner()) ==> match st.spec_dummy_hand() {
                Some(dh) => offered <==> dh.has(c) && follows_suit(trick, dh, c),
                None => !offered,
            }
            &&& (due != st.spec_side() && !(st.spec_side() == declarer && due
                == declarer.spec_partner())) ==> !offered
        }),
        forall|h: CardSet| !#[trigger] st.offers(ContractAction::ShowHand(h)),
{
    crate::player::side::law_partner(st.spec_side());
    crate::player::side::law_partner(st.spec_contract().spec_contract().spec_owner());
}

} // verus!
