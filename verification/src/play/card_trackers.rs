use vstd::prelude::*;
use crate::bits::{bit16, bit64, lemma_bit16_mask, lemma_bit16_set, lemma_bit16_zero, lemma_bit64_mask, lemma_bit64_set, lemma_bit64_zero};
use crate::card::{card_pos, lemma_card_pos, lemma_card_pos_injective, Card, Suit};
use crate::play::exhaust::first_card_where;
use crate::play::trick::Trick;
use crate::player::side::Side;

verus! {

/// Bit of the (side, suit) pair in a 16-bit exhaustion table.
pub open spec fn exhaust_pos(side: Side, suit: Suit) -> nat {
    side.spec_index() * 4 + suit.spec_age()
}

pub proof fn lemma_exhaust_pos(s1: Side, u1: Suit, s2: Side, u2: Suit)
    ensures
        exhaust_pos(s1, u1) < 16,
        exhaust_pos(s1, u1) == exhaust_pos(s2, u2) <==> (s1 == s2 && u1 == u2),
{
}

/// A record of which side has shown out of which suit.
pub trait SuitExhaustRegister {
    /// Whether `side` is recorded as having no card of `suit`.
    spec fn spec_exhausted(&self, side: Side, suit: Suit) -> bool;

    /// Records that `side` has no card of `suit`.
    fn mark_exhausted(&mut self, side: &Side, suit: &Suit)
        ensures
            forall|s: Side, u: Suit| #[trigger]
                final(self).spec_exhausted(s, u) <==> (old(self).spec_exhausted(s, u) || (s
                    == *side && u == *suit)),
    ;

    fn is_exhausted(&self, side: &Side, suit: &Suit) -> (r: bool)
        ensures
            r == self.spec_exhausted(*side, *suit),
    ;
}

/// Exhaustion table kept in 16 bits: bit `4 * side index + suit rank`.
#[derive(Debug, Clone, Copy, PartialEq, Eq, Structural)]
pub struct SuitExhaustStd {
    array: u16,
}

impl SuitExhaustStd {
    pub closed spec fn exhausted(self, side: Side, suit: Suit) -> bool {
        bit16(self.array, exhaust_pos(side, suit) as u16)
    }

    pub fn new() -> (r: SuitExhaustStd)
        ensures
            forall|s: Side, u: Suit| !#[trigger] r.exhausted(s, u),
    {
        proof {
            assert forall|s: Side, u: Suit| !#[trigger] bit16(0u16, exhaust_pos(s, u) as u16) by {
                lemma_bit16_zero(exhaust_pos(s, u) as u16);
            }
        }
        SuitExhaustStd { array: 0 }
    }

    /// The table as its 16 bits.
    pub fn as_u16(&self) -> (r: u16)
        ensures
            forall|s: Side, u: Suit| #[trigger] self.exhausted(s, u) <==> bit16(r, exhaust_pos(s, u) as u16),
    {
        self.array
    }
}

impl Default for SuitExhaustStd {
    fn default() -> (r: SuitExhaustStd)
        ensures
            forall|s: Side, u: Suit| !#[trigger] r.exhausted(s, u),
    {
        SuitExhaustStd::new()
    }
}

impl SuitExhaustRegister for SuitExhaustStd {
    open spec fn spec_exhausted(&self, side: Side, suit: Suit) -> bool {
        self.exhausted(side, suit)
    }

    fn mark_exhausted(&mut self, side: &Side, suit: &Suit) {
        let ghost pre = *self;
        let p: u16 = (side.index() * 4 + suit.age()) as u16;
        self.array = self.array | (1u16 << p);
        proof {
            assert forall|s: Side, u: Suit| #[trigger]
                self.exhausted(s, u) <==> (pre.exhausted(s, u) || (s == *side && u == *suit)) by {
                lemma_exhaust_pos(s, u, *side, *suit);
                lemma_bit16_set(pre.array, p, exhaust_pos(s, u) as u16);
            }
        }
    }

    fn is_exhausted(&self, side: &Side, suit: &Suit) -> (r: bool) {
        let p: u16 = (side.index() * 4 + suit.age()) as u16;
        proof {
            lemma_exhaust_pos(*side, *suit, *side, *suit);
            lemma_bit16_mask(self.array, p);
        }
        self.array & (1u16 << p) != 0
    }
}

/// A register of used cards, one bit per deck position.
#[derive(Debug, Clone, Copy, PartialEq, Eq, Structural)]
pub struct CardUsageRegStd {
    memory: u64,
}

impl CardUsageRegStd {
    /// Whether card `c` is registered as used.
    pub closed spec fn used(self, c: Card) -> bool {
        bit64(self.memory, card_pos(c) as u64)
    }

    pub open spec fn view(self) -> Set<Card> {
        Set::new(|c: Card| self.used(c))
    }

    pub fn new() -> (r: CardUsageRegStd)
        ensures
            r@ == Set::<Card>::empty(),
    {
        let r = CardUsageRegStd { memory: 0 };
        proof {
            assert forall|c: Card| !r.used(c) by {
                lemma_card_pos(c);
                lemma_bit64_zero(card_pos(c) as u64);
            }
            assert(r@ =~= Set::<Card>::empty());
        }
        r
    }

    pub fn mark_used(&mut self, card: &Card)
        ensures
            final(self)@ == old(self)@.insert(*card),
    {
        let ghost pre = *self;
        self.memory = self.memory | card.mask();
        proof {
            assert forall|c: Card| #[trigger] self.used(c) <==> (pre.used(c) || c == *card) by {
                lemma_card_pos(c);
                lemma_card_pos(*card);
                lemma_card_pos_injective(c, *card);
                lemma_bit64_set(pre.memory, card_pos(*card) as u64, card_pos(c) as u64);
            }
            assert(self@ =~= pre@.insert(*card));
        }
    }

    pub fn is_card_used(&self, card: &Card) -> (r: bool)
        ensures
            r == self@.contains(*card),
    {
        proof {
            lemma_card_pos(*card);
            lemma_bit64_mask(self.memory, card_pos(*card) as u64);
        }
        self.memory & card.mask() != 0
    }
}

impl Default for CardUsageRegStd {
    fn default() -> (r: CardUsageRegStd)
        ensures
            r@ == Set::<Card>::empty(),
    {
        CardUsageRegStd::new()
    }
}

/// Checks of a trick against a register of used cards.
pub trait TrickCollision {
    /// The cards registered as used.
    spec fn used_set(&self) -> Set<Card>;

    /// The first card of the trick (north, east, south, west) already registered as used.
    fn trick_collision(&self, trick: &Trick) -> (r: Option<Card>)
        ensures
            r == first_card_where(*trick, self.used_set()),
    ;

    /// Registers every card of the trick as used.
    fn mark_cards_of_trick(&mut self, trick: &Trick)
        ensures
            final(self).used_set() == old(self).used_set().union(
                Set::new(|c: Card| trick.has(c)),
            ),
    ;
}

impl TrickCollision for CardUsageRegStd {
    open spec fn used_set(&self) -> Set<Card> {
        self@
    }

    fn trick_collision(&self, trick: &Trick) -> (r: Option<Card>) {
        if let Some(c) = trick.get(Side::North) {
            if self.is_card_used(&c) {
                return Some(c);
            }
        }
        if let Some(c) = trick.get(Side::East) {
            if self.is_card_used(&c) {
                return Some(c);
            }
        }
        if let Some(c) = trick.get(Side::South) {
            if self.is_card_used(&c) {
                return Some(c);
            }
        }
        if let Some(c) = trick.get(Side::West) {
            if self.is_card_used(&c) {
                return Some(c);
            }
        }
        None
    }

    fn mark_cards_of_trick(&mut self, trick: &Trick) {
        let ghost pre = self@;
        if let Some(c) = trick.get(Side::North) {
            self.mark_used(&c);
        }
        if let Some(c) = trick.get(Side::East) {
            self.mark_used(&c);
        }
        if let Some(c) = trick.get(Side::South) {
            self.mark_used(&c);
        }
        if let Some(c) = trick.get(Side::West) {
            self.mark_used(&c);
        }
        proof {
            assert(self@ =~= pre.union(Set::new(|c: Card| trick.has(c))));
        }
    }
}

} // verus!
