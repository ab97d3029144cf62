use vstd::prelude::*;
use core::cmp::Ordering;
use vstd::std_specs::cmp::PartialOrdSpecImpl;
use crate::card::{Card, Suit};

verus! {

/// The trump of a contract: a suit, or no trump.
#[derive(Debug, Clone, Copy, PartialEq, Eq, Hash, Structural)]
pub enum Trump {
    Colored(Suit),
    NoTrump,
}

/// Three-way comparison of two integers.
pub open spec fn int_order(a: nat, b: nat) -> Ordering {
    if a < b {
        Ordering::Less
    } else if a == b {
        Ordering::Equal
    } else {
        Ordering::Greater
    }
}

/// Lexicographic combination: `first`, and on a tie `second`.
pub open spec fn then_order(first: Ordering, second: Ordering) -> Ordering {
    match first {
        Ordering::Equal => second,
        _ => first,
    }
}

/// The ordering with both sides swapped.
pub open spec fn reversed(o: Ordering) -> Ordering {
    match o {
        Ordering::Less => Ordering::Greater,
        Ordering::Equal => Ordering::Equal,
        Ordering::Greater => Ordering::Less,
    }
}

/// Figure first, suit rank on a tie.
pub open spec fn figure_then_suit(a: Card, b: Card) -> Ordering {
    then_order(
        int_order(a.figure.spec_rank(), b.figure.spec_rank()),
        int_order(a.suit.spec_age(), b.suit.spec_age()),
    )
}

/// How card `a` compares with card `b` under trump `t`: without trump by figure then suit;
/// with a trump suit, cards of one suit by figure, a trump above any other card, and
/// two cards of different plain suits by figure then suit.
pub open spec fn card_order(t: Trump, a: Card, b: Card) -> Ordering {
    match t {
        Trump::NoTrump => figure_then_suit(a, b),
        Trump::Colored(ts) => if a.suit == b.suit {
            int_order(a.figure.spec_rank(), b.figure.spec_rank())
        } else if a.suit == ts {
            Ordering::Greater
        } else if b.suit == ts {
            Ordering::Less
        } else {
            figure_then_suit(a, b)
        },
    }
}

/// How trump `a` compares with trump `b`: suits by rank, no trump above all suits.
pub open spec fn trump_order(a: Trump, b: Trump) -> Ordering {
    match a {
        Trump::NoTrump => match b {
            Trump::NoTrump => Ordering::Equal,
            _ => Ordering::Greater,
        },
        Trump::Colored(l) => match b {
            Trump::NoTrump => Ordering::Less,
            Trump::Colored(r) => int_order(l.spec_age(), r.spec_age()),
        },
    }
}

fn order_u8(a: u8, b: u8) -> (o: Ordering)
    ensures
        a < b ==> o == Ordering::Less,
        a == b ==> o == Ordering::Equal,
        a > b ==> o == Ordering::Greater,
{
    if a < b {
        Ordering::Less
    } else if a == b {
        Ordering::Equal
    } else {
        Ordering::Greater
    }
}

impl Trump {
    /// Compares two cards under this trump.
    pub fn order_cards(&self, card_one: &Card, card_two: &Card) -> (o: Ordering)
        ensures
            o == card_order(*self, *card_one, *card_two),
    {
        match self {
            Trump::NoTrump => {
                let f = order_u8(card_one.figure.rank(), card_two.figure.rank());
                match f {
                    Ordering::Equal => order_u8(card_one.suit.age(), card_two.suit.age()),
                    _ => f,
                }
            },
            Trump::Colored(trump_suit) => {
                if card_one.suit == card_two.suit {
                    order_u8(card_one.figure.rank(), card_two.figure.rank())
                } else if card_one.suit == *trump_suit {
                    Ordering::Greater
                } else if card_two.suit == *trump_suit {
                    Ordering::Less
                } else {
                    let f = order_u8(card_one.figure.rank(), card_two.figure.rank());
                    match f {
                        Ordering::Equal => order_u8(card_one.suit.age(), card_two.suit.age()),
                        _ => f,
                    }
                }
            },
        }
    }

    /// Compares two trumps: suits by rank, no trump highest.
    pub fn order(&self, other: &Trump) -> (o: Ordering)
        ensures
            o == trump_order(*self, *other),
    {
        match self {
            Trump::NoTrump => match other {
                Trump::NoTrump => Ordering::Equal,
                _ => Ordering::Greater,
            },
            Trump::Colored(left) => match other {
                Trump::NoTrump => Ordering::Less,
                Trump::Colored(right) => order_u8(left.age(), right.age()),
            },
        }
    }
}

impl PartialOrd for Trump {
    fn partial_cmp(&self, other: &Self) -> (r: Option<Ordering>) {
        Some(self.order(other))
    }
}

impl PartialOrdSpecImpl for Trump {
    open spec fn obeys_partial_cmp_spec() -> bool {
        true
    }

    open spec fn partial_cmp_spec(&self, other: &Self) -> Option<Ordering> {
        Some(trump_order(*self, *other))
    }
}

/// All the trumps, from spades to no trump.
pub fn trumps() -> (t: [Trump; 5])
    ensures
        t@ == seq![
            Trump::Colored(Suit::Spades),
            Trump::Colored(Suit::Hearts),
            Trump::Colored(Suit::Diamonds),
            Trump::Colored(Suit::Clubs),
            Trump::NoTrump,
        ],
{
    [
        Trump::Colored(Suit::Spades),
        Trump::Colored(Suit::Hearts),
        Trump::Colored(Suit::Diamonds),
        Trump::Colored(Suit::Clubs),
        Trump::NoTrump,
    ]
}

/// Under any trump the comparison of cards is antisymmetric, and only a card equals itself.
pub proof fn law_card_order_antisymmetric(t: Trump, a: Card, b: Card)
    ensures
        card_order(t, a, b) == reversed(card_order(t, b, a)),
        card_order(t, a, b) == Ordering::Equal <==> a == b,
{
}

/// Under any trump the comparison of cards is transitive.
pub proof fn law_card_order_transitive(t: Trump, a: Card, b: Card, c: Card)
    ensures
        card_order(t, a, b) == Ordering::Greater && card_order(t, b, c) == Ordering::Greater
            ==> card_order(t, a, c) == Ordering::Greater,
{
}

/// A trump card beats every card of another suit; within a suit the higher figure wins.
pub proof fn law_trump_beats(ts: Suit, a: Card, b: Card)
    ensures
        a.suit == ts && b.suit != ts ==> card_order(Trump::Colored(ts), a, b) == Ordering::Greater,
        a.suit == b.suit ==> (card_order(Trump::Colored(ts), a, b) == Ordering::Greater
            <==> a.figure.spec_rank() > b.figure.spec_rank()),
{
}

/// The comparison of trumps is antisymmetric and transitive; no trump is the highest.
pub proof fn law_trump_order(a: Trump, b: Trump, c: Trump)
    ensures
        trump_order(a, b) == reversed(trump_order(b, a)),
        trump_order(a, b) == Ordering::Equal <==> a == b,
        trump_order(a, b) == Ordering::Greater && trump_order(b, c) == Ordering::Greater
            ==> trump_order(a, c) == Ordering::Greater,
        a != Trump::NoTrump ==> trump_order(Trump::NoTrump, a) == Ordering::Greater,
{
}

/// Suit trumps rank as the suits do: clubs, then diamonds, hearts and spades; one suit
/// trump is above another exactly when its suit is older, and no trump is above them all.
pub proof fn law_suit_trumps_rank(a: Suit, b: Suit)
    ensures
        trump_order(Trump::Colored(a), Trump::Colored(b)) == Ordering::Greater <==> a.spec_age()
            > b.spec_age(),
        trump_order(Trump::Colored(a), Trump::Colored(b)) == Ordering::Less <==> a.spec_age()
            < b.spec_age(),
        a != Suit::Spades ==> trump_order(Trump::Colored(Suit::Spades), Trump::Colored(a))
            == Ordering::Greater,
        a != Suit::Clubs ==> trump_order(Trump::Colored(Suit::Clubs), Trump::Colored(a))
            == Ordering::Less,
        trump_order(Trump::Colored(Suit::Hearts), Trump::Colored(Suit::Diamonds))
            == Ordering::Greater,
        trump_order(Trump::NoTrump, Trump::Colored(a)) == Ordering::Greater,
{
}

} // verus!
