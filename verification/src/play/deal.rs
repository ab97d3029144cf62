use vstd::prelude::*;
use crate::card::{Card, Suit};
use crate::play::card_trackers::{CardUsageRegStd, SuitExhaustStd, TrickCollision};
use crate::play::contract::Contract;
use crate::play::exhaust::first_card_where;
use crate::play::trick::{law_add_card, Trick, TrickError};
use crate::play::trump::Trump;
use crate::player::axis::Axis;
use crate::player::side::Side;

verus! {

/// Errors of playing a deal.
#[derive(Debug, Clone, Copy, PartialEq, Eq, Structural)]
pub enum DealError {
    DealFull,
    DuplicateCard(Card),
    TrickError(TrickError),
    IndexedOverCurrentTrick(usize),
}

/// Number of tricks among `tricks` taken by `side` under `trump`.
pub open spec fn count_taken(tricks: Seq<Trick>, trump: Trump, side: Side) -> nat
    decreases tricks.len(),
{
    if tricks.len() == 0 {
        0
    } else {
        count_taken(tricks.drop_last(), trump, side) + if tricks.last().winner(trump) == side {
            1nat
        } else {
            0nat
        }
    }
}

/// Number of tricks among `tricks` taken by the sides of `axis` under `trump`.
pub open spec fn count_taken_axis(tricks: Seq<Trick>, trump: Trump, axis: Axis) -> nat
    decreases tricks.len(),
{
    if tricks.len() == 0 {
        0
    } else {
        count_taken_axis(tricks.drop_last(), trump, axis) + if tricks.last().winner(
            trump,
        ).spec_axis() == axis {
            1nat
        } else {
            0nat
        }
    }
}

/// The cards played in `tricks`.
pub open spec fn cards_of(tricks: Seq<Trick>) -> Set<Card>
    decreases tricks.len(),
{
    if tricks.len() == 0 {
        Set::empty()
    } else {
        cards_of(tricks.drop_last()).union(Set::new(|c: Card| tricks.last().has(c)))
    }
}

/// No card belongs to two of `tricks`.
pub open spec fn disjoint_tricks(tricks: Seq<Trick>) -> bool {
    forall|i: int, j: int, c: Card|
        0 <= i < j < tricks.len() && #[trigger] tricks[i].has(c) ==> !#[trigger] tricks[j].has(c)
}

/// A card of one of `tricks` is among their cards.
pub proof fn lemma_cards_of_member(tricks: Seq<Trick>, i: int, c: Card)
    requires
        0 <= i < tricks.len(),
        tricks[i].has(c),
    ensures
        cards_of(tricks).contains(c),
    decreases tricks.len(),
{
    if i < tricks.len() - 1 {
        lemma_cards_of_member(tricks.drop_last(), i, c);
    }
}

/// A card among the cards of `tricks` was played in one of them.
pub proof fn lemma_cards_of_source(tricks: Seq<Trick>, c: Card)
    requires
        cards_of(tricks).contains(c),
    ensures
        exists|i: int| 0 <= i < tricks.len() && #[trigger] tricks[i].has(c),
    decreases tricks.len(),
{
    if tricks.len() > 0 {
        if cards_of(tricks.drop_last()).contains(c) {
            lemma_cards_of_source(tricks.drop_last(), c);
            let i = choose|i: int| 0 <= i < tricks.drop_last().len() && #[trigger] tricks.drop_last()[i].has(c);
            assert(tricks[i] == tricks.drop_last()[i]);
        } else {
            assert(tricks[tricks.len() - 1].has(c));
        }
    }
}

/// The play of one deal: thirteen tricks under a contract.
#[derive(Debug, Clone, PartialEq, Eq)]
pub struct Deal {
    contract: Contract,
    tricks: Vec<Trick>,
    exhaust_table: SuitExhaustStd,
    current_trick: Trick,
    used_cards_memory: CardUsageRegStd,
}

impl Deal {
    pub closed spec fn spec_contract(self) -> Contract {
        self.contract
    }

    /// The completed tricks, in order of play.
    pub closed spec fn completed(self) -> Seq<Trick> {
        self.tricks@
    }

    /// The trick being played.
    pub closed spec fn current(self) -> Trick {
        self.current_trick
    }

    /// Which sides showed out of which suits.
    pub closed spec fn exhaust(self) -> SuitExhaustStd {
        self.exhaust_table
    }

    /// The cards of the completed tricks.
    pub closed spec fn used(self) -> Set<Card> {
        self.used_cards_memory@
    }

    pub open spec fn spec_trump(self) -> Trump {
        self.spec_contract().spec_bid().spec_trump()
    }

    /// The deal is consistent: at most thirteen tricks are completed, each of them is
    /// full, no card was played in two of them, the cards registered as used are exactly
    /// theirs, and the current trick is well formed.
    pub open spec fn wf(self) -> bool {
        &&& self.completed().len() <= 13
        &&& forall|i: int|
            0 <= i < self.completed().len() ==> (#[trigger] self.completed()[i]).wf()
                && self.completed()[i].is_full()
        &&& disjoint_tricks(self.completed())
        &&& self.used() == cards_of(self.completed())
        &&& self.current().wf()
    }

    /// The side due to play, or none once the deal is over.
    pub open spec fn spec_current_side(self) -> Option<Side> {
        if self.completed().len() >= 13 {
            None
        } else {
            Some(self.current().side_in_order())
        }
    }

    /// What inserting `card` for `side` answers.
    pub open spec fn insert_outcome(self, side: Side, card: Card) -> Result<Side, DealError> {
        if self.completed().len() >= 13 {
            Err(DealError::DealFull)
        } else {
            match self.current().add_outcome(self.exhaust(), side, card) {
                Err(e) => Err(DealError::TrickError(e)),
                Ok(n) => if n < 4 {
                    Ok(side.spec_next())
                } else {
                    let t = self.current().with_card(side, card);
                    match first_card_where(t, self.used()) {
                        Some(c) => Err(DealError::DuplicateCard(c)),
                        None => Ok(t.winner(self.spec_trump())),
                    }
                },
            }
        }
    }

    /// How the deal `post` after inserting `card` for `side` relates to the deal `pre`:
    /// the contract stays; a refused card (deal full, or refused by the trick) changes
    /// nothing; an accepted card updates the exhaustion table as the trick prescribes, and
    /// either joins the current trick or, as the fourth card, closes it (when none of its
    /// cards was already used): the trick joins the completed ones, its cards join the used
    /// ones and its taker leads the next one. A fourth card that repeats a used card stays
    /// in the full current trick.
    pub open spec fn inserted(pre: Deal, post: Deal, side: Side, card: Card) -> bool {
        let r = pre.insert_outcome(side, card);
        let added = pre.completed().len() < 13 && pre.current().add_outcome(pre.exhaust(), side, card) is Ok;
        &&& post.spec_contract() == pre.spec_contract()
        &&& r is Err ==> post.completed() == pre.completed() && post.used() == pre.used()
        &&& !added ==> post == pre
        &&& added ==> {
            &&& forall|s: Side, u: Suit| #[trigger]
                post.exhaust().exhausted(s, u) <==> (pre.exhaust().exhausted(s, u)
                    || (pre.current().shows_out(side, card) && s == side && u == pre.current().slot(
                    pre.current().first(),
                ).unwrap().suit))
            &&& r is Err ==> post.current() == pre.current().with_card(side, card)
            &&& (r is Ok && pre.current().count() < 3) ==> post.current() == pre.current().with_card(
                side,
                card,
            ) && post.completed() == pre.completed() && post.used() == pre.used()
            &&& (r is Ok && pre.current().count() == 3) ==> {
                &&& post.completed() == pre.completed().push(pre.current().with_card(side, card))
                &&& post.current() == Trick::empty_led_by(r->Ok_0)
                &&& post.used() == pre.used().union(
                    Set::new(|c: Card| pre.current().with_card(side, card).has(c)),
                )
            }
        }
    }

    /// A deal about to start: the side after the declarer leads the first trick.
    pub fn new(contract: Contract) -> (d: Deal)
        ensures
            d.wf(),
            d.spec_contract() == contract,
            d.completed() == Seq::<Trick>::empty(),
            d.current() == Trick::empty_led_by(contract.spec_owner().spec_next()),
            d.used() == Set::<Card>::empty(),
            forall|s: Side, u: Suit| !#[trigger] d.exhaust().exhausted(s, u),
    {
        let first_player = contract.declarer().next();
        Deal {
            contract,
            tricks: Vec::new(),
            exhaust_table: SuitExhaustStd::new(),
            current_trick: Trick::new(first_player),
            used_cards_memory: CardUsageRegStd::new(),
        }
    }

    pub fn current_trick(&self) -> (t: &Trick)
        ensures
            *t == self.current(),
    {
        &self.current_trick
    }

    /// Number of completed tricks.
    pub fn completed_tricks(&self) -> (n: usize)
        ensures
            n == self.completed().len(),
    {
        self.tricks.len()
    }

    /// The completed trick of index `index`.
    pub fn completed_trick(&self, index: usize) -> (t: Trick)
        requires
            index < self.completed().len(),
        ensures
            t == self.completed()[index as int],
    {
        self.tricks[index]
    }

    pub fn contract(&self) -> (c: Contract)
        ensures
            c == self.spec_contract(),
    {
        self.contract
    }

    pub fn declarer(&self) -> (s: Side)
        ensures
            s == self.spec_contract().spec_owner(),
    {
        self.contract.declarer()
    }

    pub fn dummy(&self) -> (s: Side)
        ensures
            s == self.spec_contract().spec_owner().spec_partner(),
    {
        self.contract.dummy()
    }

    /// The register of cards of the completed tricks.
    pub fn used_cards(&self) -> (r: CardUsageRegStd)
        ensures
            r@ == self.used(),
    {
        self.used_cards_memory
    }

    /// The table of exhausted suits.
    pub fn suits_exhausted(&self) -> (r: SuitExhaustStd)
        ensures
            r == self.exhaust(),
    {
        self.exhaust_table
    }

    /// The side due to play, or none once all thirteen tricks are completed.
    pub fn current_side(&self) -> (r: Option<Side>)
        requires
            self.wf(),
        ensures
            r == self.spec_current_side(),
    {
        if self.tricks.len() >= 13 {
            None
        } else {
            Some(self.current_trick.first_player_side().next_i(self.current_trick.count_cards()))
        }
    }

    /// The side due to play in the current trick (its leader again once it is full).
    pub fn current_turn(&self) -> (s: Side)
        ensures
            s == self.current().side_in_order(),
    {
        self.current_trick.first_player_side().next_i(self.current_trick.count_cards())
    }

    fn complete_current_trick(&mut self, winner: Side) -> (r: Result<(), DealError>)
        requires
            old(self).wf(),
            old(self).completed().len() < 13,
            old(self).current().is_full(),
            winner == old(self).current().winner(old(self).spec_trump()),
        ensures
            final(self).wf(),
            final(self).spec_contract() == old(self).spec_contract(),
            final(self).exhaust() == old(self).exhaust(),
            match first_card_where(old(self).current(), old(self).used()) {
                Some(c) => r == Err::<(), DealError>(DealError::DuplicateCard(c)) && *final(self)
                    == *old(self),
                None => {
                    &&& r is Ok
                    &&& final(self).completed() == old(self).completed().push(old(self).current())
                    &&& final(self).current() == Trick::empty_led_by(winner)
                    &&& final(self).used() == old(self).used().union(
                        Set::new(|c: Card| old(self).current().has(c)),
                    )
                },
            },
    {
        if let Some(c) = self.used_cards_memory.trick_collision(&self.current_trick) {
            return Err(DealError::DuplicateCard(c));
        }
        let ghost pre = *self;
        self.used_cards_memory.mark_cards_of_trick(&self.current_trick);
        let finished = self.current_trick;
        self.tricks.push(finished);
        self.current_trick = Trick::new(winner);
        proof {
            assert forall|i: int| 0 <= i < self.completed().len() implies (#[trigger] self.completed()[i]).wf()
                && self.completed()[i].is_full() by {
                if i < pre.completed().len() {
                    assert(self.completed()[i] == pre.completed()[i]);
                }
            }
            assert(self.completed().drop_last() =~= pre.completed());
            assert(self.used() =~= cards_of(self.completed()));
            assert forall|i: int, j: int, c: Card|
                0 <= i < j < self.completed().len() && #[trigger] self.completed()[i].has(c) implies
                !#[trigger] self.completed()[j].has(c) by {
                assert(self.completed()[i] == pre.completed()[i]);
                if j < pre.completed().len() {
                    assert(self.completed()[j] == pre.completed()[j]);
                } else {
                    lemma_cards_of_member(pre.completed(), i, c);
                }
            }
        }
        Ok(())
    }

    /// Inserts a card for `side` into the current trick; a trick that becomes full is
    /// judged and closed. Returns the side to play next (the taker after a closed trick).
    pub fn insert_card(&mut self, side: Side, card: Card) -> (r: Result<Side, DealError>)
        requires
            old(self).wf(),
        ensures
            final(self).wf(),
            r == old(self).insert_outcome(side, card),
            Deal::inserted(*old(self), *final(self), side, card),
    {
        if self.tricks.len() >= 13 {
            return Err(DealError::DealFull);
        }
        let trump = self.contract.bid().trump();
        let ghost pre = *self;
        match self.current_trick.add_card(side, card, &mut self.exhaust_table) {
            Ok(n) => {
                proof {
                    law_add_card(pre.current(), pre.exhaust(), side, card);
                }
                if n == 4 {
                    match self.current_trick.taker(&trump) {
                        Ok(winner) => match self.complete_current_trick(winner) {
                            Ok(()) => Ok(winner),
                            Err(e) => Err(e),
                        },
                        Err(e) => Err(DealError::TrickError(e)),
                    }
                } else {
                    Ok(side.next())
                }
            },
            Err(e) => Err(DealError::TrickError(e)),
        }
    }

    /// The trump of the contract.
    pub fn trump(&self) -> (t: Trump)
        ensures
            t == self.spec_trump(),
    {
        self.contract.bid().trump()
    }

    /// The most recently completed trick, if any.
    pub fn last_completed_trick(&self) -> (r: Option<Trick>)
        ensures
            self.completed().len() == 0 ==> r is None,
            self.completed().len() > 0 ==> r == Some(self.completed().last()),
    {
        let n = self.tricks.len();
        if n == 0 {
            None
        } else {
            Some(self.tricks[n - 1])
        }
    }

    /// A fresh trick for the next round: led by the declarer's right-hand side before any
    /// trick is completed, else by the taker of the last completed trick.
    pub fn init_new_trick(&self) -> (r: Option<Trick>)
        requires
            self.wf(),
        ensures
            self.completed().len() == 0 ==> r == Some(
                Trick::empty_led_by(self.spec_contract().spec_owner().spec_prev()),
            ),
            self.completed().len() > 0 ==> r == Some(
                Trick::empty_led_by(self.completed().last().winner(self.spec_trump())),
            ),
    {
        match self.last_completed_trick() {
            None => Some(Trick::new(self.contract.declarer().prev())),
            Some(t) => t.prepare_new(self.trump()),
        }
    }

    /// The side that took the completed trick of index `index`.
    pub fn side_winning_trick(&self, index: usize) -> (r: Result<Side, DealError>)
        requires
            self.wf(),
        ensures
            index < self.completed().len() ==> r == Ok::<Side, DealError>(
                self.completed()[index as int].winner(self.spec_trump()),
            ),
            index >= self.completed().len() ==> r == Err::<Side, DealError>(
                DealError::IndexedOverCurrentTrick(self.completed().len() as usize),
            ),
    {
        if index < self.tricks.len() {
            match self.tricks[index].taker(&self.contract.bid().trump()) {
                Ok(s) => Ok(s),
                Err(e) => Err(DealError::TrickError(e)),
            }
        } else {
            Err(DealError::IndexedOverCurrentTrick(self.tricks.len()))
        }
    }

    /// Counts tricks taken by `side`.
    pub fn tricks_taken(&self, side: Side) -> (n: usize)
        requires
            self.wf(),
        ensures
            n == count_taken(self.completed(), self.spec_trump(), side),
    {
        let trump = self.contract.bid().trump();
        let mut count: usize = 0;
        let mut i: usize = 0;
        while i < self.tricks.len()
            invariant
                self.wf(),
                trump == self.spec_trump(),
                i <= self.tricks@.len(),
                count == count_taken(self.completed().take(i as int), trump, side),
                count <= i,
            decreases self.tricks@.len() - i,
        {
            proof {
                assert(self.completed().take(i + 1).drop_last() =~= self.completed().take(i as int));
            }
            let w = match self.tricks[i].taker(&trump) {
                Ok(w) => w,
                Err(_) => side.next(),
            };
            if w == side {
                count = count + 1;
            }
            i = i + 1;
        }
        proof {
            assert(self.completed().take(i as int) =~= self.completed());
        }
        count
    }

    /// Counts tricks taken by the sides of `axis`.
    pub fn tricks_taken_axis(&self, axis: Axis) -> (n: usize)
        requires
            self.wf(),
        ensures
            n == count_taken_axis(self.completed(), self.spec_trump(), axis),
    {
        let trump = self.contract.bid().trump();
        let mut count: usize = 0;
        let mut i: usize = 0;
        while i < self.tricks.len()
            invariant
                self.wf(),
                trump == self.spec_trump(),
                i <= self.tricks@.len(),
                count == count_taken_axis(self.completed().take(i as int), trump, axis),
                count <= i,
            decreases self.tricks@.len() - i,
        {
            proof {
                assert(self.completed().take(i + 1).drop_last() =~= self.completed().take(i as int));
            }
            match self.tricks[i].taker(&trump) {
                Ok(w) => {
                    if w.axis() == axis {
                        count = count + 1;
                    }
                },
                Err(_) => {},
            }
            i = i + 1;
        }
        proof {
            assert(self.completed().take(i as int) =~= self.completed());
        }
        count
    }

    /// Whether all thirteen tricks are completed.
    pub fn is_completed(&self) -> (r: bool)
        requires
            self.wf(),
        ensures
            r == (self.completed().len() == 13),
    {
        self.tricks.len() == 13
    }
}

/// No card is played twice in a deal: two completed tricks never share a card, and the
/// cards registered as used are exactly the cards of the completed tricks.
pub proof fn law_cards_played_once(d: Deal)
    requires
        d.wf(),
    ensures
        forall|i: int, j: int, c: Card|
            0 <= i < j < d.completed().len() && #[trigger] d.completed()[i].has(c) ==> !#[trigger] d.completed()[j].has(c),
        forall|c: Card|
            #[trigger] d.used().contains(c) <==> exists|i: int|
                0 <= i < d.completed().len() && #[trigger] d.completed()[i].has(c),
{
    assert forall|c: Card| #[trigger] d.used().contains(c) <==> exists|i: int|
        0 <= i < d.completed().len() && #[trigger] d.completed()[i].has(c) by {
        if d.used().contains(c) {
            lemma_cards_of_source(d.completed(), c);
        }
        if exists|i: int| 0 <= i < d.completed().len() && #[trigger] d.completed()[i].has(c) {
            let i = choose|i: int| 0 <= i < d.completed().len() && #[trigger] d.completed()[i].has(c);
            lemma_cards_of_member(d.completed(), i, c);
        }
    }
}

/// Inserting the same card for the same side into the same deal gives the same deal: copies
/// of a deal that receive the same plays (the environment's and each player's) stay equal in
/// their contract, tricks, used cards and exhaustion table.
pub proof fn law_insert_deterministic(pre: Deal, a: Deal, b: Deal, side: Side, card: Card)
    requires
        pre.wf(),
        Deal::inserted(pre, a, side, card),
        Deal::inserted(pre, b, side, card),
    ensures
        a.spec_contract() == b.spec_contract(),
        a.completed() == b.completed(),
        a.current() == b.current(),
        a.used() == b.used(),
        forall|s: Side, u: Suit| #[trigger] a.exhaust().exhausted(s, u) == b.exhaust().exhausted(s, u),
{
}

/// Every completed trick is taken by exactly one side: the counts of the four sides add
/// up to the number of completed tricks, and an axis takes what its two sides take.
pub proof fn law_tricks_taken_sum(tricks: Seq<Trick>, trump: Trump)
    ensures
        count_taken(tricks, trump, Side::North) + count_taken(tricks, trump, Side::East)
            + count_taken(tricks, trump, Side::South) + count_taken(tricks, trump, Side::West)
            == tricks.len(),
        count_taken_axis(tricks, trump, Axis::NorthSouth) == count_taken(tricks, trump, Side::North)
            + count_taken(tricks, trump, Side::South),
        count_taken_axis(tricks, trump, Axis::EastWest) == count_taken(tricks, trump, Side::East)
            + count_taken(tricks, trump, Side::West),
    decreases tricks.len(),
{
    if tricks.len() > 0 {
        law_tricks_taken_sum(tricks.drop_last(), trump);
    }
}

/// No side or axis is counted more tricks than there are.
pub proof fn lemma_count_taken_axis_bound(tricks: Seq<Trick>, trump: Trump, axis: Axis)
    ensures
        count_taken_axis(tricks, trump, axis) <= tricks.len(),
    decreases tricks.len(),
{
    if tricks.len() > 0 {
        lemma_count_taken_axis_bound(tricks.drop_last(), trump, axis);
    }
}

/// Closing a trick adds one to the count of its taker and leaves the others unchanged.
pub proof fn law_tricks_taken_push(tricks: Seq<Trick>, t: Trick, trump: Trump, side: Side)
    ensures
        count_taken(tricks.push(t), trump, side) == count_taken(tricks, trump, side) + if t.winner(
            trump,
        ) == side {
            1nat
        } else {
            0nat
        },
{
    assert(tricks.push(t).drop_last() =~= tricks);
}

} // verus!
