use vstd::prelude::*;
use crate::bits::{bit64, lemma_bit64_zero, lemma_bit64_set, lemma_bit64_clear, lemma_bit64_mask};

verus! {

/// Number of cards in the standard deck.
pub const DECK_SIZE: usize = 52;

/// Number of cards in a hand, and of tricks in a deal.
pub const QUARTER_SIZE: usize = 13;

/// Index of the last trick of a deal.
pub const MAX_INDEX_IN_DEAL: usize = 12;

/// The four suits of the standard deck.
#[derive(Debug, Clone, Copy, PartialEq, Eq, Hash, Structural)]
pub enum Suit {
    Spades,
    Hearts,
    Diamonds,
    Clubs,
}

impl Suit {
    /// Rank of the suit: clubs lowest, spades highest.
    pub open spec fn spec_age(self) -> nat {
        match self {
            Suit::Clubs => 0,
            Suit::Diamonds => 1,
            Suit::Hearts => 2,
            Suit::Spades => 3,
        }
    }

    /// The suit whose rank is `a`.
    pub open spec fn from_age(a: int) -> Suit {
        if a == 0 {
            Suit::Clubs
        } else if a == 1 {
            Suit::Diamonds
        } else if a == 2 {
            Suit::Hearts
        } else {
            Suit::Spades
        }
    }

    pub fn age(&self) -> (r: u8)
        ensures
            r == self.spec_age(),
    {
        match self {
            Suit::Clubs => 0,
            Suit::Diamonds => 1,
            Suit::Hearts => 2,
            Suit::Spades => 3,
        }
    }

    /// The suit of rank `a` (clubs 0 .. spades 3).
    pub fn from_age_exec(a: u8) -> (r: Suit)
        requires
            a < 4,
        ensures
            r == Suit::from_age(a as int),
            r.spec_age() == a,
    {
        if a == 0 {
            Suit::Clubs
        } else if a == 1 {
            Suit::Diamonds
        } else if a == 2 {
            Suit::Hearts
        } else {
            Suit::Spades
        }
    }
}

/// The thirteen figures of the standard deck.
#[derive(Debug, Clone, Copy, PartialEq, Eq, Hash, Structural)]
pub enum Figure {
    Two,
    Three,
    Four,
    Five,
    Six,
    Seven,
    Eight,
    Nine,
    Ten,
    Jack,
    Queen,
    King,
    Ace,
}

impl Figure {
    /// Face value of the figure: two is 2, ace is 14.
    pub open spec fn spec_rank(self) -> nat {
        match self {
            Figure::Two => 2,
            Figure::Three => 3,
            Figure::Four => 4,
            Figure::Five => 5,
            Figure::Six => 6,
            Figure::Seven => 7,
            Figure::Eight => 8,
            Figure::Nine => 9,
            Figure::Ten => 10,
            Figure::Jack => 11,
            Figure::Queen => 12,
            Figure::King => 13,
            Figure::Ace => 14,
        }
    }

    /// The figure whose face value is `r`.
    pub open spec fn from_rank(r: int) -> Figure {
        if r == 2 {
            Figure::Two
        } else if r == 3 {
            Figure::Three
        } else if r == 4 {
            Figure::Four
        } else if r == 5 {
            Figure::Five
        } else if r == 6 {
            Figure::Six
        } else if r == 7 {
            Figure::Seven
        } else if r == 8 {
            Figure::Eight
        } else if r == 9 {
            Figure::Nine
        } else if r == 10 {
            Figure::Ten
        } else if r == 11 {
            Figure::Jack
        } else if r == 12 {
            Figure::Queen
        } else if r == 13 {
            Figure::King
        } else {
            Figure::Ace
        }
    }

    pub fn rank(&self) -> (r: u8)
        ensures
            r == self.spec_rank(),
    {
        match self {
            Figure::Two => 2,
            Figure::Three => 3,
            Figure::Four => 4,
            Figure::Five => 5,
            Figure::Six => 6,
            Figure::Seven => 7,
            Figure::Eight => 8,
            Figure::Nine => 9,
            Figure::Ten => 10,
            Figure::Jack => 11,
            Figure::Queen => 12,
            Figure::King => 13,
            Figure::Ace => 14,
        }
    }

    /// The figure of face value `r` (2 ..= 14).
    pub fn from_rank_exec(r: u8) -> (f: Figure)
        requires
            2 <= r <= 14,
        ensures
            f == Figure::from_rank(r as int),
            f.spec_rank() == r,
    {
        if r == 2 {
            Figure::Two
        } else if r == 3 {
            Figure::Three
        } else if r == 4 {
            Figure::Four
        } else if r == 5 {
            Figure::Five
        } else if r == 6 {
            Figure::Six
        } else if r == 7 {
            Figure::Seven
        } else if r == 8 {
            Figure::Eight
        } else if r == 9 {
            Figure::Nine
        } else if r == 10 {
            Figure::Ten
        } else if r == 11 {
            Figure::Jack
        } else if r == 12 {
            Figure::Queen
        } else if r == 13 {
            Figure::King
        } else {
            Figure::Ace
        }
    }
}

/// A playing card of the standard deck.
#[derive(Debug, Clone, Copy, PartialEq, Eq, Hash, Structural)]
pub struct Card {
    pub figure: Figure,
    pub suit: Suit,
}

/// Position of a card in the deck: suits grouped by rank (clubs first),
/// figures ascending inside a suit.
pub open spec fn card_pos(c: Card) -> nat {
    c.suit.spec_age() * 13 + (c.figure.spec_rank() - 2) as nat
}

/// The card standing at position `p` of the deck.
pub open spec fn card_at(p: int) -> Card {
    Card { figure: Figure::from_rank(p % 13 + 2), suit: Suit::from_age(p / 13) }
}

pub proof fn lemma_card_pos(c: Card)
    ensures
        card_pos(c) < 52,
        card_at(card_pos(c) as int) == c,
{
}

pub proof fn lemma_card_at(p: int)
    requires
        0 <= p < 52,
    ensures
        card_pos(card_at(p)) == p,
{
}

/// Distinct cards stand at distinct positions.
pub proof fn lemma_card_pos_injective(c1: Card, c2: Card)
    ensures
        card_pos(c1) == card_pos(c2) <==> c1 == c2,
{
    lemma_card_pos(c1);
    lemma_card_pos(c2);
}

impl Card {
    pub fn new(figure: Figure, suit: Suit) -> (c: Card)
        ensures
            c.figure == figure,
            c.suit == suit,
    {
        Card { figure, suit }
    }

    pub fn figure(&self) -> (f: Figure)
        ensures
            f == self.figure,
    {
        self.figure
    }

    pub fn suit(&self) -> (s: Suit)
        ensures
            s == self.suit,
    {
        self.suit
    }

    /// Position of the card in the deck (0 .. 52).
    pub fn position(&self) -> (p: u8)
        ensures
            p == card_pos(*self),
            p < 52,
    {
        self.suit.age() * 13 + (self.figure.rank() - 2)
    }

    /// The card at deck position `p`.
    pub fn from_position(p: u8) -> (c: Card)
        requires
            p < 52,
        ensures
            c == card_at(p as int),
            card_pos(c) == p,
    {
        proof {
            lemma_card_at(p as int);
        }
        Card { figure: Figure::from_rank_exec(p % 13 + 2), suit: Suit::from_age_exec(p / 13) }
    }

    /// One-bit mask of the card's position.
    pub fn mask(&self) -> (m: u64)
        ensures
            m == 1u64 << card_pos(*self) as u64,
    {
        let p = self.position() as u64;
        1u64 << p
    }
}

/// Error of operations on sets of cards.
#[derive(Debug, Clone, Copy, PartialEq, Eq, Structural)]
pub enum CardError {
    CardNotInSet(Card),
    CardAlreadyInSet(Card),
}

/// A set of cards kept as a 52-bit mask (one bit per deck position).
#[derive(Debug, Clone, Copy, PartialEq, Eq, Structural)]
pub struct CardSet {
    pub cards: u64,
}

impl CardSet {
    /// Whether the set holds card `c`.
    pub open spec fn has(self, c: Card) -> bool {
        bit64(self.cards, card_pos(c) as u64)
    }

    pub open spec fn view(self) -> Set<Card> {
        Set::new(|c: Card| self.has(c))
    }

    /// The set without card `c`.
    pub open spec fn without(self, c: Card) -> CardSet {
        CardSet { cards: self.cards & !(1u64 << card_pos(c) as u64) }
    }

    /// The set with card `c` added.
    pub open spec fn with(self, c: Card) -> CardSet {
        CardSet { cards: self.cards | (1u64 << card_pos(c) as u64) }
    }

    pub fn empty() -> (s: CardSet)
        ensures
            s.cards == 0,
            forall|c: Card| !s.has(c),
    {
        proof {
            assert forall|c: Card| !bit64(0u64, card_pos(c) as u64) by {
                lemma_card_pos(c);
                lemma_bit64_zero(card_pos(c) as u64);
            }
        }
        CardSet { cards: 0 }
    }

    pub fn contains(&self, card: &Card) -> (r: bool)
        ensures
            r == self.has(*card),
    {
        proof {
            lemma_card_pos(*card);
            lemma_bit64_mask(self.cards, card_pos(*card) as u64);
        }
        self.cards & card.mask() != 0
    }

    /// Adds a card; refuses a card that is already in the set.
    pub fn insert_card(&mut self, card: Card) -> (r: Result<(), CardError>)
        ensures
            r is Err <==> old(self).has(card),
            r matches Err(e) ==> e == CardError::CardAlreadyInSet(card) && *final(self) == *old(
                self,
            ),
            r is Ok ==> *final(self) == old(self).with(card),
            r is Ok ==> forall|c: Card| final(self).has(c) <==> (old(self).has(c) || c == card),
    {
        if self.contains(&card) {
            return Err(CardError::CardAlreadyInSet(card));
        }
        let ghost pre = *self;
        self.cards = self.cards | card.mask();
        proof {
            lemma_card_pos(card);
            assert forall|c: Card| self.has(c) <==> (pre.has(c) || c == card) by {
                lemma_card_pos(c);
                lemma_card_pos(card);
                lemma_card_pos_injective(c, card);
                lemma_bit64_set(pre.cards, card_pos(card) as u64, card_pos(c) as u64);
            }
        }
        Ok(())
    }

    /// Removes a card; refuses a card that is not in the set.
    pub fn remove_card(&mut self, card: &Card) -> (r: Result<(), CardError>)
        ensures
            r is Err <==> !old(self).has(*card),
            r matches Err(e) ==> e == CardError::CardNotInSet(*card) && *final(self) == *old(
                self,
            ),
            r is Ok ==> *final(self) == old(self).without(*card),
            r is Ok ==> forall|c: Card| final(self).has(c) <==> (old(self).has(c) && c != *card),
    {
        if !self.contains(card) {
            return Err(CardError::CardNotInSet(*card));
        }
        let ghost pre = *self;
        self.cards = self.cards & !card.mask();
        proof {
            lemma_card_pos(*card);
            assert forall|c: Card| self.has(c) <==> (pre.has(c) && c != *card) by {
                lemma_card_pos(c);
                lemma_card_pos(*card);
                lemma_card_pos_injective(c, *card);
                lemma_bit64_clear(pre.cards, card_pos(*card) as u64, card_pos(c) as u64);
            }
        }
        Ok(())
    }

    /// Whether the set holds no card.
    pub fn is_empty(&self) -> (r: bool)
        ensures
            r == (self.cards == 0),
    {
        self.cards == 0
    }

    /// Whether the set holds some card of suit `suit`.
    pub fn contains_in_suit(&self, suit: &Suit) -> (r: bool)
        ensures
            r == exists|c: Card| self.has(c) && c.suit == *suit,
    {
        let mut f: u8 = 2;
        while f <= 14
            invariant
                2 <= f <= 15,
                forall|c: Card| c.suit == *suit && c.figure.spec_rank() < f ==> !self.has(c),
            decreases 15 - f,
        {
            let c = Card::new(Figure::from_rank_exec(f), *suit);
            if self.contains(&c) {
                return true;
            }
            f = f + 1;
        }
        false
    }

    /// The cards of the set, in deck order.
    pub fn to_vec(&self) -> (v: Vec<Card>)
        ensures
            forall|c: Card| #[trigger] v@.contains(c) <==> self.has(c),
            forall|i: int, j: int| 0 <= i < j < v@.len() ==> card_pos(v@[i]) < card_pos(v@[j]),
    {
        let mut v: Vec<Card> = Vec::new();
        let mut p: u8 = 0;
        while p < 52
            invariant
                p <= 52,
                forall|c: Card| #[trigger] v@.contains(c) <==> (self.has(c) && card_pos(c) < p),
                forall|i: int| 0 <= i < v@.len() ==> card_pos(#[trigger] v@[i]) < p,
                forall|i: int, j: int| 0 <= i < j < v@.len() ==> card_pos(v@[i]) < card_pos(v@[j]),
            decreases 52 - p,
        {
            let c = Card::from_position(p);
            let ghost old_v = v@;
            if self.contains(&c) {
                v.push(c);
                proof {
                    assert forall|d: Card| #[trigger] v@.contains(d) <==> (self.has(d) && card_pos(d)
                        < p + 1) by {
                        lemma_card_pos_injective(c, d);
                        if d == c {
                            assert(v@[v@.len() - 1] == c);
                        }
                        if old_v.contains(d) {
                            let k = choose|k: int| 0 <= k < old_v.len() && old_v[k] == d;
                            assert(v@[k] == d);
                        }
                        if v@.contains(d) && d != c {
                            let k = choose|k: int| 0 <= k < v@.len() && v@[k] == d;
                            assert(old_v[k] == d);
                        }
                    }
                }
            } else {
                proof {
                    assert forall|d: Card| #[trigger] v@.contains(d) <==> (self.has(d) && card_pos(d)
                        < p + 1) by {
                        lemma_card_pos_injective(c, d);
                    }
                }
            }
            p = p + 1;
        }
        v
    }
}

} // verus!
