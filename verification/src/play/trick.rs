use vstd::prelude::*;
use crate::card::{Card, Suit};
use crate::play::card_trackers::{SuitExhaustRegister, SuitExhaustStd};
use crate::play::trump::{card_order, Trump, law_card_order_antisymmetric, law_card_order_transitive};
use crate::player::side::Side;

verus! {

/// An expected value together with the one actually met.
#[derive(Debug, Clone, Copy, PartialEq, Eq, Structural)]
pub struct Mismatch<T> {
    pub expected: T,
    pub found: T,
}

/// Why a card cannot be added to a trick, or a trick cannot be judged.
#[derive(Debug, Clone, Copy, PartialEq, Eq, Structural)]
pub enum TrickError {
    MissingCard(Side),
    CardSlotAlreadyUsed(Side),
    DuplicateCard(Card),
    ViolatedOrder(Mismatch<Side>),
    UsedPreviouslyExhaustedSuit(Suit),
}

/// One trick: at most one card from each side, played clockwise from the first player.
#[derive(Debug, Clone, Copy, PartialEq, Eq, Structural)]
pub struct Trick {
    north_card: Option<Card>,
    west_card: Option<Card>,
    south_card: Option<Card>,
    east_card: Option<Card>,
    first_player: Side,
    card_num: u8,
}

/// Two optional cards that are not the same card.
pub open spec fn differ(a: Option<Card>, b: Option<Card>) -> bool {
    a is None || b is None || a != b
}

/// Whether card `a` beats card `b` under trump `t`.
pub open spec fn beats(t: Trump, a: Card, b: Card) -> bool {
    card_order(t, a, b) == core::cmp::Ordering::Greater
}

impl Trick {
    /// The card played by `side`, if any.
    pub closed spec fn slot(self, side: Side) -> Option<Card> {
        match side {
            Side::North => self.north_card,
            Side::East => self.east_card,
            Side::South => self.south_card,
            Side::West => self.west_card,
        }
    }

    /// The side that leads the trick.
    pub closed spec fn first(self) -> Side {
        self.first_player
    }

    /// Number of cards played so far.
    pub closed spec fn count(self) -> nat {
        self.card_num as nat
    }

    /// The trick is consistent: the cards played are exactly those of the first `count`
    /// sides in clockwise order from the leader, and no card appears twice.
    pub open spec fn wf(self) -> bool {
        &&& self.count() <= 4
        &&& self.slot(self.first().spec_next_i(0)) is Some == (0 < self.count())
        &&& self.slot(self.first().spec_next_i(1)) is Some == (1 < self.count())
        &&& self.slot(self.first().spec_next_i(2)) is Some == (2 < self.count())
        &&& self.slot(self.first().spec_next_i(3)) is Some == (3 < self.count())
        &&& differ(self.slot(Side::North), self.slot(Side::East))
        &&& differ(self.slot(Side::North), self.slot(Side::South))
        &&& differ(self.slot(Side::North), self.slot(Side::West))
        &&& differ(self.slot(Side::East), self.slot(Side::South))
        &&& differ(self.slot(Side::East), self.slot(Side::West))
        &&& differ(self.slot(Side::South), self.slot(Side::West))
    }

    /// Every side has played.
    pub open spec fn is_full(self) -> bool {
        &&& self.slot(Side::North) is Some
        &&& self.slot(Side::East) is Some
        &&& self.slot(Side::South) is Some
        &&& self.slot(Side::West) is Some
    }

    /// Some side played card `c`.
    pub open spec fn has(self, c: Card) -> bool {
        ||| self.slot(Side::North) == Some(c)
        ||| self.slot(Side::East) == Some(c)
        ||| self.slot(Side::South) == Some(c)
        ||| self.slot(Side::West) == Some(c)
    }

    /// The empty trick led by `first`.
    pub closed spec fn empty_led_by(first: Side) -> Trick {
        Trick {
            north_card: None,
            west_card: None,
            south_card: None,
            east_card: None,
            first_player: first,
            card_num: 0,
        }
    }

    /// The trick after `side` plays `card`.
    pub closed spec fn with_card(self, side: Side, card: Card) -> Trick {
        let t = Trick { card_num: (self.card_num + 1) as u8, ..self };
        match side {
            Side::North => Trick { north_card: Some(card), ..t },
            Side::East => Trick { east_card: Some(card), ..t },
            Side::South => Trick { south_card: Some(card), ..t },
            Side::West => Trick { west_card: Some(card), ..t },
        }
    }

    /// The side due to play next.
    pub open spec fn side_in_order(self) -> Side {
        self.first().spec_next_i(self.count() as int)
    }

    /// What adding `card` for `side` answers, given the exhaustion table `ex`.
    pub open spec fn add_outcome(self, ex: SuitExhaustStd, side: Side, card: Card) -> Result<
        u8,
        TrickError,
    > {
        if ex.exhausted(side, card.suit) {
            Err(TrickError::UsedPreviouslyExhaustedSuit(card.suit))
        } else if side != self.side_in_order() {
            Err(TrickError::ViolatedOrder(Mismatch { expected: self.side_in_order(), found: side }))
        } else if self.slot(side) is Some {
            Err(TrickError::CardSlotAlreadyUsed(side))
        } else if self.has(card) {
            Err(TrickError::DuplicateCard(card))
        } else {
            Ok((self.count() + 1) as u8)
        }
    }

    /// Whether a successful play of `card` by `side` shows `side` out of the led suit.
    pub open spec fn shows_out(self, side: Side, card: Card) -> bool {
        side != self.first() && card.suit != self.slot(self.first()).unwrap().suit
    }

    /// The trump that decides the trick: the contract trump, or the led suit without trump.
    pub open spec fn effective_trump(self, trump: Trump) -> Trump {
        match trump {
            Trump::Colored(_) => trump,
            Trump::NoTrump => Trump::Colored(self.slot(self.first()).unwrap().suit),
        }
    }

    /// The winner found by comparing north, then south, west and east in turn.
    pub open spec fn winner(self, trump: Trump) -> Side {
        let t = self.effective_trump(trump);
        let w1 = if beats(t, self.slot(Side::South).unwrap(), self.slot(Side::North).unwrap()) {
            Side::South
        } else {
            Side::North
        };
        let w2 = if beats(t, self.slot(Side::West).unwrap(), self.slot(w1).unwrap()) {
            Side::West
        } else {
            w1
        };
        if beats(t, self.slot(Side::East).unwrap(), self.slot(w2).unwrap()) {
            Side::East
        } else {
            w2
        }
    }

    /// The side whose missing card stops the judgement of the trick.
    pub open spec fn first_missing_for_taker(self, trump: Trump) -> Side {
        if self.slot(Side::North) is None {
            Side::North
        } else if trump == Trump::NoTrump && self.slot(self.first()) is None {
            self.first()
        } else if self.slot(Side::South) is None {
            Side::South
        } else if self.slot(Side::West) is None {
            Side::West
        } else {
            Side::East
        }
    }

    /// The side that has not played yet, first in the order north, east, south, west.
    pub open spec fn first_missing(self) -> Option<Side> {
        if self.slot(Side::North) is None {
            Some(Side::North)
        } else if self.slot(Side::East) is None {
            Some(Side::East)
        } else if self.slot(Side::South) is None {
            Some(Side::South)
        } else if self.slot(Side::West) is None {
            Some(Side::West)
        } else {
            None
        }
    }

    /// The first card of `other`, in the order north, east, south, west, that is also in
    /// this trick.
    pub open spec fn shared_card(self, other: Trick) -> Option<Card> {
        if other.slot(Side::North) is Some && self.has(other.slot(Side::North).unwrap()) {
            other.slot(Side::North)
        } else if other.slot(Side::East) is Some && self.has(other.slot(Side::East).unwrap()) {
            other.slot(Side::East)
        } else if other.slot(Side::South) is Some && self.has(other.slot(Side::South).unwrap()) {
            other.slot(Side::South)
        } else if other.slot(Side::West) is Some && self.has(other.slot(Side::West).unwrap()) {
            other.slot(Side::West)
        } else {
            None
        }
    }

    /// An empty trick led by `first_player`.
    pub fn new(first_player: Side) -> (t: Trick)
        ensures
            t == Trick::empty_led_by(first_player),
            t.wf(),
            t.first() == first_player,
            t.count() == 0,
            forall|s: Side| #[trigger] t.slot(s) is None,
    {
        Trick {
            first_player,
            north_card: None,
            south_card: None,
            west_card: None,
            east_card: None,
            card_num: 0,
        }
    }

    /// The card played by `side`, if any.
    pub fn get(&self, side: Side) -> (r: Option<Card>)
        ensures
            r == self.slot(side),
    {
        match side {
            Side::North => self.north_card,
            Side::South => self.south_card,
            Side::West => self.west_card,
            Side::East => self.east_card,
        }
    }

    /// Adds `card` played by `side`, checking the order of play, duplicates, and the
    /// exhaustion table; a side that does not follow the led suit is recorded as
    /// exhausted in it. Returns the number of cards in the trick.
    pub fn add_card(&mut self, side: Side, card: Card, exhaust_register: &mut SuitExhaustStd) -> (r:
        Result<u8, TrickError>)
        requires
            old(self).wf(),
        ensures
            final(self).wf(),
            r == old(self).add_outcome(*old(exhaust_register), side, card),
            r is Err ==> *final(self) == *old(self) && *final(exhaust_register) == *old(
                exhaust_register,
            ),
            r is Ok ==> *final(self) == old(self).with_card(side, card),
            r is Ok ==> forall|s: Side, u: Suit| #[trigger]
                final(exhaust_register).exhausted(s, u) <==> (old(exhaust_register).exhausted(s, u)
                    || (old(self).shows_out(side, card) && s == side && u == old(self).slot(
                    old(self).first(),
                ).unwrap().suit)),
    {
        if exhaust_register.is_exhausted(&side, &card.suit) {
            return Err(TrickError::UsedPreviouslyExhaustedSuit(card.suit));
        }
        let side_in_order = self.first_player.next_i(self.card_num);
        if side != side_in_order {
            return Err(TrickError::ViolatedOrder(Mismatch { expected: side_in_order, found: side }));
        }
        if self.get(side).is_some() {
            return Err(TrickError::CardSlotAlreadyUsed(side));
        }
        if self.contains(&card) {
            return Err(TrickError::DuplicateCard(card));
        }
        let ghost ex_pre = *exhaust_register;
        if side != self.first_player {
            let lead = self.get(self.first_player).unwrap();
            if card.suit != lead.suit {
                exhaust_register.mark_exhausted(&side, &lead.suit);
                proof {
                    assert forall|s: Side, u: Suit| #[trigger]
                        exhaust_register.exhausted(s, u) <==> (ex_pre.exhausted(s, u) || (s
                            == side && u == lead.suit)) by {
                        assert(exhaust_register.spec_exhausted(s, u) <==> (ex_pre.spec_exhausted(
                            s,
                            u,
                        ) || (s == side && u == lead.suit)));
                    }
                }
            }
        }
        let ghost pre = *self;
        self.card_num = self.card_num + 1;
        match side {
            Side::North => self.north_card = Some(card),
            Side::South => self.south_card = Some(card),
            Side::West => self.west_card = Some(card),
            Side::East => self.east_card = Some(card),
        }
        proof {
            assert(*self == pre.with_card(side, card));
        }
        Ok(self.card_num)
    }

    /// Whether some side played `card`.
    pub fn contains(&self, card: &Card) -> (r: bool)
        ensures
            r == self.has(*card),
    {
        self.north_card == Some(*card) || self.east_card == Some(*card) || self.south_card == Some(
            *card,
        ) || self.west_card == Some(*card)
    }

    /// Whether the two tricks hold a common card.
    pub fn collides(&self, other: &Trick) -> (r: bool)
        ensures
            r == self.shared_card(*other) is Some,
    {
        self.collision(other).is_some()
    }

    /// The first card of `other` (north, east, south, west) that this trick also holds.
    pub fn collision(&self, other: &Trick) -> (r: Option<Card>)
        ensures
            r == self.shared_card(*other),
    {
        if let Some(c) = other.north_card {
            if self.contains(&c) {
                return Some(c);
            }
        }
        if let Some(c) = other.east_card {
            if self.contains(&c) {
                return Some(c);
            }
        }
        if let Some(c) = other.south_card {
            if self.contains(&c) {
                return Some(c);
            }
        }
        if let Some(c) = other.west_card {
            if self.contains(&c) {
                return Some(c);
            }
        }
        None
    }

    /// Whether every side has played.
    pub fn is_complete(&self) -> (r: bool)
        ensures
            r == self.is_full(),
    {
        self.north_card.is_some() && self.east_card.is_some() && self.south_card.is_some()
            && self.west_card.is_some()
    }

    /// Whether no side has played yet.
    pub fn is_empty(&self) -> (r: bool)
        ensures
            r == (self.slot(Side::North) is None && self.slot(Side::East) is None && self.slot(
                Side::South,
            ) is None && self.slot(Side::West) is None),
    {
        self.north_card.is_none() && self.east_card.is_none() && self.south_card.is_none()
            && self.west_card.is_none()
    }

    /// The first side (north, east, south, west) that has not played.
    pub fn missing_card(&self) -> (r: Option<Side>)
        ensures
            r == self.first_missing(),
    {
        if self.north_card.is_none() {
            Some(Side::North)
        } else if self.east_card.is_none() {
            Some(Side::East)
        } else if self.south_card.is_none() {
            Some(Side::South)
        } else if self.west_card.is_none() {
            Some(Side::West)
        } else {
            None
        }
    }

    fn winner_of_2(&self, winner_so_far: Side, check_side: Side, trump: &Trump) -> (r: Result<
        Side,
        TrickError,
    >)
        requires
            self.slot(winner_so_far) is Some,
        ensures
            self.slot(check_side) is None ==> r == Err::<Side, TrickError>(
                TrickError::MissingCard(check_side),
            ),
            self.slot(check_side) is Some ==> r == Ok::<Side, TrickError>(
                if beats(*trump, self.slot(check_side).unwrap(), self.slot(winner_so_far).unwrap()) {
                    check_side
                } else {
                    winner_so_far
                },
            ),
    {
        match self.get(check_side) {
            None => Err(TrickError::MissingCard(check_side)),
            Some(c) => {
                let w = self.get(winner_so_far).unwrap();
                match trump.order_cards(&c, &w) {
                    core::cmp::Ordering::Greater => Ok(check_side),
                    _ => Ok(winner_so_far),
                }
            },
        }
    }

    /// The side that takes the trick under `trump`.
    pub fn taker(&self, trump: &Trump) -> (r: Result<Side, TrickError>)
        requires
            self.wf(),
        ensures
            r is Ok <==> self.is_full(),
            r matches Ok(s) ==> s == self.winner(*trump),
            r is Err ==> r == Err::<Side, TrickError>(
                TrickError::MissingCard(self.first_missing_for_taker(*trump)),
            ),
    {
        if self.north_card.is_none() {
            return Err(TrickError::MissingCard(Side::North));
        }
        let t = match trump {
            Trump::Colored(_) => *trump,
            Trump::NoTrump => match self.get(self.first_player) {
                None => {
                    return Err(TrickError::MissingCard(self.first_player));
                },
                Some(c) => Trump::Colored(c.suit),
            },
        };
        let w = self.winner_of_2(Side::North, Side::South, &t)?;
        let w = self.winner_of_2(w, Side::West, &t)?;
        let w = self.winner_of_2(w, Side::East, &t)?;
        Ok(w)
    }

    /// An empty trick led by the taker of this one, if this one is complete.
    pub fn prepare_new(&self, trump: Trump) -> (r: Option<Trick>)
        requires
            self.wf(),
        ensures
            r is Some <==> self.is_full(),
            r matches Some(t) ==> t == Trick::empty_led_by(self.winner(trump)) && t.wf(),
    {
        match self.taker(&trump) {
            Ok(s) => Some(Trick::new(s)),
            Err(_) => None,
        }
    }

    /// The suit of the card led, if any.
    pub fn called_suit(&self) -> (r: Option<Suit>)
        ensures
            r == (match self.slot(self.first()) {
                Some(c) => Some(c.suit),
                None => None::<Suit>,
            }),
    {
        match self.get(self.first_player) {
            Some(c) => Some(c.suit),
            None => None,
        }
    }

    pub fn first_player_side(&self) -> (s: Side)
        ensures
            s == self.first(),
    {
        self.first_player
    }

    /// Number of cards played so far.
    pub fn count_cards(&self) -> (n: u8)
        ensures
            n == self.count(),
    {
        self.card_num
    }
}

impl Default for Trick {
    fn default() -> (t: Trick)
        ensures
            t == Trick::empty_led_by(Side::North),
    {
        Trick::new(Side::North)
    }
}

/// Playing a legal card records it for its side and moves the turn one place clockwise.
pub proof fn law_add_card(t: Trick, ex: SuitExhaustStd, side: Side, card: Card)
    requires
        t.wf(),
        t.add_outcome(ex, side, card) is Ok,
    ensures
        t.count() < 4,
        t.with_card(side, card).wf(),
        t.with_card(side, card).slot(side) == Some(card),
        t.with_card(side, card).count() == t.count() + 1,
        t.with_card(side, card).first() == t.first(),
        t.with_card(side, card).side_in_order() == side.spec_next(),
        forall|s: Side| s != side ==> t.with_card(side, card).slot(s) == t.slot(s),
{
    assert(t.with_card(side, card).slot(Side::North) == if side == Side::North {
        Some(card)
    } else {
        t.slot(Side::North)
    });
}

/// A full trick is taken by the side whose card beats each of the other three.
pub proof fn law_taker_is_highest(t: Trick, trump: Trump)
    requires
        t.wf(),
        t.is_full(),
    ensures
        forall|o: Side|
            o != t.winner(trump) ==> beats(
                t.effective_trump(trump),
                t.slot(t.winner(trump)).unwrap(),
                #[trigger] t.slot(o).unwrap(),
            ),
{
    let e = t.effective_trump(trump);
    let n = t.slot(Side::North).unwrap();
    let ea = t.slot(Side::East).unwrap();
    let so = t.slot(Side::South).unwrap();
    let w = t.slot(Side::West).unwrap();
    law_card_order_antisymmetric(e, n, ea);
    law_card_order_antisymmetric(e, n, so);
    law_card_order_antisymmetric(e, n, w);
    law_card_order_antisymmetric(e, ea, so);
    law_card_order_antisymmetric(e, ea, w);
    law_card_order_antisymmetric(e, so, w);
    law_card_order_transitive(e, n, so, w);
    law_card_order_transitive(e, so, n, w);
    law_card_order_transitive(e, n, so, ea);
    law_card_order_transitive(e, so, n, ea);
    law_card_order_transitive(e, n, w, ea);
    law_card_order_transitive(e, w, n, ea);
    law_card_order_transitive(e, so, w, ea);
    law_card_order_transitive(e, w, so, ea);
    law_card_order_transitive(e, w, so, n);
    law_card_order_transitive(e, w, n, so);
    law_card_order_transitive(e, ea, w, n);
    law_card_order_transitive(e, ea, so, n);
    law_card_order_transitive(e, ea, n, so);
    law_card_order_transitive(e, ea, w, so);
    law_card_order_transitive(e, ea, n, w);
    law_card_order_transitive(e, ea, so, w);
}

/// Two tricks share a card one way exactly when they share one the other way.
pub proof fn law_collision_symmetric(a: Trick, b: Trick)
    ensures
        a.shared_card(b) is Some <==> b.shared_card(a) is Some,
        a.shared_card(b) matches Some(c) ==> a.has(c) && b.has(c),
{
}

} // verus!
