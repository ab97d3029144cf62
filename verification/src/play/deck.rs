use vstd::prelude::*;
use arrayvec::ArrayVec;
use rand::rngs::ThreadRng;
use rand::seq::SliceRandom;
use crate::card::{Card, Figure, Suit, DECK_SIZE};

verus! {

#[verifier::external_type_specification]
#[verifier::external_body]
#[verifier::reject_recursive_types(T)]
pub struct ExArrayVec<T, const CAP: usize>(ArrayVec<T, CAP>);

/// The cards held by a fixed-capacity vector of 52 cards, in order.
pub uninterp spec fn deck_cards(v: ArrayVec<Card, 52>) -> Seq<Card>;

/// `ArrayVec::new`: an empty vector.
#[verifier::external_body]
fn cards_new() -> (v: ArrayVec<Card, 52>)
    ensures
        deck_cards(v) == Seq::<Card>::empty(),
{
    ArrayVec::new()
}

/// `ArrayVec::push`: appends a card; it panics on a full vector, which `requires` excludes.
#[verifier::external_body]
fn cards_push(v: &mut ArrayVec<Card, 52>, c: Card)
    requires
        deck_cards(*old(v)).len() < 52,
    ensures
        deck_cards(*final(v)) == deck_cards(*old(v)).push(c),
{
    v.push(c)
}

/// `ArrayVec::len`: the number of cards held, never above the capacity.
#[verifier::external_body]
fn cards_len(v: &ArrayVec<Card, 52>) -> (n: usize)
    ensures
        n == deck_cards(*v).len(),
        n <= 52,
{
    v.len()
}

/// Indexing an `ArrayVec` (through its slice) at a position below its length.
#[verifier::external_body]
fn cards_at(v: &ArrayVec<Card, 52>, index: usize) -> (c: Card)
    requires
        index < deck_cards(*v).len(),
    ensures
        c == deck_cards(*v)[index as int],
{
    v[index]
}

#[verifier::external_type_specification]
#[verifier::external_body]
pub struct ExThreadRng(ThreadRng);

/// `rand::thread_rng`: a handle on the thread's random generator; nothing is claimed of it.
#[verifier::external_body]
fn thread_generator() -> (rng: ThreadRng) {
    rand::thread_rng()
}

/// `SliceRandom::shuffle` over the vector's slice: the same cards, in an order that depends
/// on the generator.
#[verifier::external_body]
fn cards_shuffle(v: &mut ArrayVec<Card, 52>, rng: &mut ThreadRng)
    ensures
        deck_cards(*final(v)).to_multiset() == deck_cards(*old(v)).to_multiset(),
        deck_cards(*final(v)).len() == deck_cards(*old(v)).len(),
{
    v.as_mut_slice().shuffle(rng)
}

/// Suits in deck order: spades, hearts, diamonds, clubs.
pub open spec fn suit_in_order(i: int) -> Suit {
    if i == 0 {
        Suit::Spades
    } else if i == 1 {
        Suit::Hearts
    } else if i == 2 {
        Suit::Diamonds
    } else {
        Suit::Clubs
    }
}

/// Figures in deck order: from the ace down to the two.
pub open spec fn figure_in_order(i: int) -> Figure {
    Figure::from_rank(14 - i)
}

fn suit_in_order_exec(i: usize) -> (s: Suit)
    requires
        i < 4,
    ensures
        s == suit_in_order(i as int),
{
    if i == 0 {
        Suit::Spades
    } else if i == 1 {
        Suit::Hearts
    } else if i == 2 {
        Suit::Diamonds
    } else {
        Suit::Clubs
    }
}

fn figure_in_order_exec(i: usize) -> (f: Figure)
    requires
        i < 13,
    ensures
        f == figure_in_order(i as int),
{
    Figure::from_rank_exec((14 - i) as u8)
}

/// The standard deck sorted by suits, figures descending inside each suit.
pub open spec fn sorted_by_suits() -> Seq<Card> {
    Seq::new(52, |i: int| Card { figure: figure_in_order(i % 13), suit: suit_in_order(i / 13) })
}

/// The standard deck sorted by figures (descending), suits in deck order for each figure.
pub open spec fn sorted_by_figures() -> Seq<Card> {
    Seq::new(52, |i: int| Card { figure: figure_in_order(i / 4), suit: suit_in_order(i % 4) })
}

/// A deck of the 52 cards.
#[derive(Debug)]
pub struct Deck {
    cards: ArrayVec<Card, 52>,
}

impl Deck {
    /// The cards of the deck, in order.
    pub closed spec fn view(self) -> Seq<Card> {
        deck_cards(self.cards)
    }

    pub fn new_sorted_by_suits() -> (d: Deck)
        ensures
            d@ == sorted_by_suits(),
    {
        let mut v = cards_new();
        let mut s: usize = 0;
        while s < 4
            invariant
                s <= 4,
                deck_cards(v) == sorted_by_suits().take((s * 13) as int),
            decreases 4 - s,
        {
            let mut f: usize = 0;
            while f < 13
                invariant
                    s < 4,
                    f <= 13,
                    deck_cards(v) == sorted_by_suits().take((s * 13 + f) as int),
                decreases 13 - f,
            {
                let c = Card::new(figure_in_order_exec(f), suit_in_order_exec(s));
                proof {
                    let k = (s * 13 + f) as int;
                    assert(k / 13 == s && k % 13 == f);
                    assert(sorted_by_suits()[k] == c);
                    assert(sorted_by_suits().take(k + 1) =~= sorted_by_suits().take(k).push(c));
                }
                cards_push(&mut v, c);
                f = f + 1;
            }
            s = s + 1;
        }
        proof {
            assert(sorted_by_suits().take(52) =~= sorted_by_suits());
        }
        Deck { cards: v }
    }

    pub fn new_sorted_by_figures() -> (d: Deck)
        ensures
            d@ == sorted_by_figures(),
    {
        let mut v = cards_new();
        let mut f: usize = 0;
        while f < 13
            invariant
                f <= 13,
                deck_cards(v) == sorted_by_figures().take((f * 4) as int),
            decreases 13 - f,
        {
            let mut s: usize = 0;
            while s < 4
                invariant
                    f < 13,
                    s <= 4,
                    deck_cards(v) == sorted_by_figures().take((f * 4 + s) as int),
                decreases 4 - s,
            {
                let c = Card::new(figure_in_order_exec(f), suit_in_order_exec(s));
                proof {
                    let k = (f * 4 + s) as int;
                    assert(k / 4 == f && k % 4 == s);
                    assert(sorted_by_figures()[k] == c);
                    assert(sorted_by_figures().take(k + 1) =~= sorted_by_figures().take(k).push(c));
                }
                cards_push(&mut v, c);
                s = s + 1;
            }
            f = f + 1;
        }
        proof {
            assert(sorted_by_figures().take(52) =~= sorted_by_figures());
        }
        Deck { cards: v }
    }

    /// The card at position `index` of the deck.
    pub fn at(&self, index: usize) -> (c: Card)
        requires
            index < self@.len(),
        ensures
            c == self@[index as int],
    {
        cards_at(&self.cards, index)
    }

    /// Number of cards in the deck.
    pub fn len(&self) -> (n: usize)
        ensures
            n == self@.len(),
    {
        cards_len(&self.cards)
    }

    /// Puts the cards in a random order.
    pub fn shuffle(&mut self)
        ensures
            final(self)@.to_multiset() == old(self)@.to_multiset(),
            final(self)@.len() == old(self)@.len(),
    {
        let mut rng = thread_generator();
        cards_shuffle(&mut self.cards, &mut rng);
    }

    pub fn cards(&self) -> (v: &ArrayVec<Card, 52>)
        ensures
            deck_cards(*v) == self@,
    {
        &self.cards
    }

    /// The cards of the deck, in order.
    pub fn to_vec(&self) -> (v: Vec<Card>)
        ensures
            v@ == self@,
    {
        let n = cards_len(&self.cards);
        let mut v: Vec<Card> = Vec::new();
        let mut i: usize = 0;
        while i < n
            invariant
                n == self@.len(),
                i <= n,
                v@ == self@.take(i as int),
            decreases n - i,
        {
            let c = cards_at(&self.cards, i);
            proof {
                assert(self@.take(i + 1) =~= self@.take(i as int).push(c));
            }
            v.push(c);
            i = i + 1;
        }
        proof {
            assert(self@.take(n as int) =~= self@);
        }
        v
    }
}

/// Each sorted deck holds every card of the standard deck exactly once.
pub proof fn law_sorted_decks_complete(c: Card)
    ensures
        sorted_by_suits().contains(c),
        sorted_by_figures().contains(c),
        sorted_by_suits().len() == DECK_SIZE,
        sorted_by_figures().len() == DECK_SIZE,
{
    let si: int = match c.suit {
        Suit::Spades => 0,
        Suit::Hearts => 1,
        Suit::Diamonds => 2,
        Suit::Clubs => 3,
    };
    let fi: int = 14 - c.figure.spec_rank();
    assert(sorted_by_suits()[si * 13 + fi] == c);
    assert(sorted_by_figures()[fi * 4 + si] == c);
}

} // verus!
