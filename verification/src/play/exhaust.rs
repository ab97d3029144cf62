use vstd::prelude::*;
use crate::bits::{bit16, bit64, lemma_bit16_mask, lemma_bit16_set, lemma_bit16_zero, lemma_bit64_mask, lemma_bit64_set, lemma_bit64_zero};
use crate::card::{card_pos, lemma_card_pos, lemma_card_pos_injective, Card, Suit};
use crate::play::card_trackers::{exhaust_pos, lemma_exhaust_pos};
use crate::play::trick::Trick;
use crate::player::side::{side_at, Side};

verus! {

/// The first card of `trick` (north, east, south, west) that belongs to `used`.
pub open spec fn first_card_where(trick: Trick, used: Set<Card>) -> Option<Card> {
    if trick.slot(Side::North) is Some && used.contains(trick.slot(Side::North).unwrap()) {
        trick.slot(Side::North)
    } else if trick.slot(Side::East) is Some && used.contains(trick.slot(Side::East).unwrap()) {
        trick.slot(Side::East)
    } else if trick.slot(Side::South) is Some && used.contains(trick.slot(Side::South).unwrap()) {
        trick.slot(Side::South)
    } else if trick.slot(Side::West) is Some && used.contains(trick.slot(Side::West).unwrap()) {
        trick.slot(Side::West)
    } else {
        None
    }
}

/// A register of the cards already played, one bit per deck position.
#[derive(Debug, Clone, Copy, PartialEq, Eq, Structural)]
pub struct UsedCards {
    memory: u64,
}

impl UsedCards {
    /// Whether card `c` is registered as used.
    pub closed spec fn used(self, c: Card) -> bool {
        bit64(self.memory, card_pos(c) as u64)
    }

    pub open spec fn view(self) -> Set<Card> {
        Set::new(|c: Card| self.used(c))
    }

    pub fn new() -> (r: UsedCards)
        ensures
            r@ == Set::<Card>::empty(),
    {
        let r = UsedCards { memory: 0 };
        proof {
            assert forall|c: Card| !r.used(c) by {
                lemma_card_pos(c);
                lemma_bit64_zero(card_pos(c) as u64);
            }
            assert(r@ =~= Set::<Card>::empty());
        }
        r
    }

    /// Marks card as used.
    pub fn mark_used(&mut self, card: Card)
        ensures
            final(self)@ == old(self)@.insert(card),
    {
        let ghost pre = *self;
        self.memory = self.memory | card.mask();
        proof {
            assert forall|c: Card| #[trigger] self.used(c) <==> (pre.used(c) || c == card) by {
                lemma_card_pos(c);
                lemma_card_pos(card);
                lemma_card_pos_injective(c, card);
                lemma_bit64_set(pre.memory, card_pos(card) as u64, card_pos(c) as u64);
            }
            assert(self@ =~= pre@.insert(card));
        }
    }

    /// Checks if card is used.
    pub fn check_card(&self, card: Card) -> (r: bool)
        ensures
            r == self@.contains(card),
    {
        proof {
            lemma_card_pos(card);
            lemma_bit64_mask(self.memory, card_pos(card) as u64);
        }
        self.memory & card.mask() != 0
    }

    /// Marks every card of the trick as used.
    pub fn mark_used_trick(&mut self, trick: &Trick)
        ensures
            forall|c: Card| #[trigger] final(self)@.contains(c) <==> (old(self)@.contains(c)
                || trick.has(c)),
    {
        let ghost pre = *self;
        if let Some(c) = trick.get(Side::North) {
            self.mark_used(c);
        }
        if let Some(c) = trick.get(Side::East) {
            self.mark_used(c);
        }
        if let Some(c) = trick.get(Side::South) {
            self.mark_used(c);
        }
        if let Some(c) = trick.get(Side::West) {
            self.mark_used(c);
        }
    }

    /// The first card of the trick (north, east, south, west) already registered as used.
    pub fn trick_collision(&self, trick: Trick) -> (r: Option<Card>)
        ensures
            r == first_card_where(trick, self@),
    {
        if let Some(c) = trick.get(Side::North) {
            if self.check_card(c) {
                return Some(c);
            }
        }
        if let Some(c) = trick.get(Side::East) {
            if self.check_card(c) {
                return Some(c);
            }
        }
        if let Some(c) = trick.get(Side::South) {
            if self.check_card(c) {
                return Some(c);
            }
        }
        if let Some(c) = trick.get(Side::West) {
            if self.check_card(c) {
                return Some(c);
            }
        }
        None
    }
}

impl Default for UsedCards {
    fn default() -> (r: UsedCards)
        ensures
            r@ == Set::<Card>::empty(),
    {
        UsedCards::new()
    }
}

/// A record of exhausted suits per side, one bit for each (side, suit) pair.
#[derive(Debug, Clone, Copy, PartialEq, Eq, Structural)]
pub struct Exhaust {
    array: u16,
}

impl Exhaust {
    /// Whether `side` is recorded as out of `suit`.
    pub closed spec fn exhausted(self, side: Side, suit: Suit) -> bool {
        bit16(self.array, exhaust_pos(side, suit) as u16)
    }

    /// The raw 16 bits.
    pub closed spec fn bits(self) -> u16 {
        self.array
    }

    pub fn new() -> (r: Exhaust)
        ensures
            r.bits() == 0,
            forall|s: Side, u: Suit| !#[trigger] r.exhausted(s, u),
    {
        proof {
            assert forall|s: Side, u: Suit| !#[trigger] bit16(0u16, exhaust_pos(s, u) as u16) by {
                lemma_bit16_zero(exhaust_pos(s, u) as u16);
            }
        }
        Exhaust { array: 0 }
    }

    pub fn get_exhaust(&self, side: Side, suit: Suit) -> (r: bool)
        ensures
            r == self.exhausted(side, suit),
    {
        let p: u16 = (side.index() * 4 + suit.age()) as u16;
        proof {
            lemma_exhaust_pos(side, suit, side, suit);
            lemma_bit16_mask(self.array, p);
        }
        self.array & (1u16 << p) != 0
    }

    /// The record as 16 bits: bit `4 * side index + suit rank` for each exhausted pair.
    pub fn as_u16(&self) -> (r: u16)
        ensures
            r == self.bits(),
            forall|s: Side, u: Suit| #[trigger] self.exhausted(s, u) <==> bit16(r, exhaust_pos(s, u) as u16),
    {
        self.array
    }

    pub fn mark_exhausted(&mut self, side: Side, suit: Suit)
        ensures
            final(self).bits() == old(self).bits() | (1u16 << exhaust_pos(side, suit) as u16),
            forall|s: Side, u: Suit| #[trigger]
                final(self).exhausted(s, u) <==> (old(self).exhausted(s, u) || (s == side && u
                    == suit)),
    {
        let ghost pre = *self;
        let p: u16 = (side.index() * 4 + suit.age()) as u16;
        self.array = self.array | (1u16 << p);
        proof {
            assert forall|s: Side, u: Suit| #[trigger]
                self.exhausted(s, u) <==> (pre.exhausted(s, u) || (s == side && u == suit)) by {
                lemma_exhaust_pos(s, u, side, suit);
                lemma_bit16_set(pre.array, p, exhaust_pos(s, u) as u16);
            }
        }
    }
}

impl Default for Exhaust {
    fn default() -> (r: Exhaust)
        ensures
            r.bits() == 0,
    {
        Exhaust::new()
    }
}

/// A record of exhausted suits per side, one flag array per suit indexed by side.
#[derive(Debug, Clone, Copy, PartialEq, Eq)]
pub struct SuitExhaust {
    spades: [bool; 4],
    hearts: [bool; 4],
    diamonds: [bool; 4],
    clubs: [bool; 4],
}

impl SuitExhaust {
    /// The flags of `suit`, indexed by side position.
    pub closed spec fn row(self, suit: Suit) -> Seq<bool> {
        match suit {
            Suit::Spades => self.spades@,
            Suit::Hearts => self.hearts@,
            Suit::Diamonds => self.diamonds@,
            Suit::Clubs => self.clubs@,
        }
    }

    /// Whether `side` is recorded as out of `suit`.
    pub open spec fn flag(self, side: Side, suit: Suit) -> bool {
        self.row(suit)[side.spec_index() as int]
    }

    pub closed spec fn wf(self) -> bool {
        &&& self.spades@.len() == 4
        &&& self.hearts@.len() == 4
        &&& self.diamonds@.len() == 4
        &&& self.clubs@.len() == 4
    }

    pub fn new() -> (r: SuitExhaust)
        ensures
            r.wf(),
            forall|s: Side, u: Suit| !#[trigger] r.flag(s, u),
    {
        SuitExhaust {
            spades: [false, false, false, false],
            hearts: [false, false, false, false],
            diamonds: [false, false, false, false],
            clubs: [false, false, false, false],
        }
    }

    /// The flags of `suit`, for north, east, south and west.
    pub fn get_suit_exhaust(&self, suit: Suit) -> (r: [bool; 4])
        ensures
            forall|i: int| 0 <= i < 4 ==> #[trigger] r@[i] == self.flag(side_at(i), suit),
    {
        match suit {
            Suit::Spades => self.spades,
            Suit::Hearts => self.hearts,
            Suit::Diamonds => self.diamonds,
            Suit::Clubs => self.clubs,
        }
    }

    /// The flags of `side`, for spades, hearts, diamonds and clubs.
    pub fn get_side_exhaust(&self, side: Side) -> (r: [bool; 4])
        requires
            self.wf(),
        ensures
            r@ == seq![
                self.flag(side, Suit::Spades),
                self.flag(side, Suit::Hearts),
                self.flag(side, Suit::Diamonds),
                self.flag(side, Suit::Clubs),
            ],
    {
        let i = side.index() as usize;
        let r = [self.spades[i], self.hearts[i], self.diamonds[i], self.clubs[i]];
        proof {
            assert(r@ =~= seq![
                self.flag(side, Suit::Spades),
                self.flag(side, Suit::Hearts),
                self.flag(side, Suit::Diamonds),
                self.flag(side, Suit::Clubs),
            ]);
        }
        r
    }

    pub fn get_exhaust(&self, side: Side, suit: Suit) -> (r: bool)
        requires
            self.wf(),
        ensures
            r == self.flag(side, suit),
    {
        let row = self.get_suit_exhaust(suit);
        row[side.index() as usize]
    }

    /// Marks suit as exhausted for a side.
    pub fn exhaust(&mut self, side: &Side, suit: &Suit)
        requires
            old(self).wf(),
        ensures
            final(self).wf(),
            forall|s: Side, u: Suit| #[trigger]
                final(self).flag(s, u) <==> (old(self).flag(s, u) || (s == *side && u == *suit)),
    {
        let i = side.index() as usize;
        match suit {
            Suit::Spades => self.spades[i] = true,
            Suit::Hearts => self.hearts[i] = true,
            Suit::Diamonds => self.diamonds[i] = true,
            Suit::Clubs => self.clubs[i] = true,
        }
    }
}

impl Default for SuitExhaust {
    fn default() -> (r: SuitExhaust)
        ensures
            r.wf(),
            forall|s: Side, u: Suit| !#[trigger] r.flag(s, u),
    {
        SuitExhaust::new()
    }
}

/// Reading a card register after marking a card: the card is used, others are as before.
pub proof fn law_used_cards_mark_then_check(r: UsedCards, card: Card, other: Card)
    ensures
        r@.insert(card).contains(card),
        other != card ==> (r@.insert(card).contains(other) == r@.contains(other)),
{
}

/// The cards a register holds after marking `cs` in order, starting from `UsedCards::new`:
/// `new` gives the empty set and each `mark_used` inserts its card.
pub open spec fn marked(cs: Seq<Card>) -> Set<Card>
    decreases cs.len(),
{
    if cs.len() == 0 {
        Set::empty()
    } else {
        marked(cs.drop_last()).insert(cs.last())
    }
}

/// After any sequence of marks on a new register (in any order, repeats allowed), a card
/// checks as used exactly when it was one of the marked cards.
pub proof fn law_used_cards_after_marks(cs: Seq<Card>)
    ensures
        forall|c: Card| #[trigger] marked(cs).contains(c) <==> cs.contains(c),
    decreases cs.len(),
{
    if cs.len() > 0 {
        law_used_cards_after_marks(cs.drop_last());
        assert(marked(cs) == marked(cs.drop_last()).insert(cs.last()));
        assert forall|c: Card| #[trigger] marked(cs).contains(c) <==> cs.contains(c) by {
            assert(marked(cs.drop_last()).contains(c) <==> cs.drop_last().contains(c));
            if cs.drop_last().contains(c) {
                let i = choose|i: int| 0 <= i < cs.drop_last().len() && cs.drop_last()[i] == c;
                assert(cs[i] == c);
            }
            if cs.contains(c) && c != cs.last() {
                let i = choose|i: int| 0 <= i < cs.len() && cs[i] == c;
                assert(i != cs.len() - 1);
                assert(cs.drop_last()[i] == c);
            }
            if c == cs.last() {
                assert(cs[cs.len() - 1] == c);
            }
        }
    }
}

} // verus!
