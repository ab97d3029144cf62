use std::cmp::Ordering;

use brydz_core::card::{Card, CardSet, Figure, Suit};
use brydz_core::play::contract::{Bid, Contract, Doubling};
use brydz_core::play::deal::Deal;
use brydz_core::play::deck::Deck;
use brydz_core::play::trump::Trump;
use brydz_core::player::axis::Axis;
use brydz_core::player::side::Side::{East, North, South, West};
use brydz_core::player::side::SIDES;
use brydz_core::score::tables::{PointsContractedTrick, PointsOverTrick, PointsSlam};
use brydz_core::state::action::ContractAction::PlaceCard;
use brydz_core::state::action::ContractStateUpdate;
use brydz_core::state::agent::ContractAgentInfoSetSimple;

fn card(figure: Figure, suit: Suit) -> Card {
    Card::new(figure, suit)
}

/// Plays the first `n` cards of the deck sorted by suits, four to a trick, north leading.
fn played(n: usize) -> Deal {
    let deck = Deck::new_sorted_by_suits();
    let mut deal = Deal::new(Contract::new(West, Bid::create_bid(Trump::NoTrump, 1).unwrap()));
    let mut side = North;
    for i in 0..n {
        side = deal.insert_card(side, deck.at(i)).unwrap();
    }
    deal
}

#[test]
fn copies_of_a_deal_stay_equal() {
    let a = played(23);
    let b = played(23);
    assert_eq!(a, b);
    let mut c = played(22);
    let mut d = played(22);
    let r1 = c.insert_card(East, card(Figure::Two, Suit::Clubs));
    let r2 = d.insert_card(East, card(Figure::Two, Suit::Clubs));
    assert_eq!(r1, r2);
    assert_eq!(c, d);
}

#[test]
fn no_card_is_used_twice() {
    let deal = played(52);
    assert!(deal.is_completed());
    let mut seen = CardSet::empty();
    for i in 0..deal.completed_tricks() {
        let trick = deal.completed_trick(i);
        for side in SIDES {
            let c = trick.get(side).unwrap();
            assert!(seen.insert_card(c).is_ok());
            assert!(deal.used_cards().is_card_used(&c));
        }
    }
}

#[test]
fn tricks_taken_add_up() {
    let deal = played(40);
    let total: usize = SIDES.iter().map(|s| deal.tricks_taken(*s)).sum();
    assert_eq!(total, deal.completed_tricks());
    assert_eq!(deal.tricks_taken_axis(Axis::NorthSouth), deal.tricks_taken(North) + deal.tricks_taken(South));
    assert_eq!(deal.tricks_taken_axis(Axis::EastWest), deal.tricks_taken(East) + deal.tricks_taken(West));
}

#[test]
fn offered_cards_are_the_valid_ones() {
    let hand_cards = [
        card(Figure::Ace, Suit::Spades),
        card(Figure::Two, Suit::Spades),
        card(Figure::King, Suit::Hearts),
        card(Figure::Three, Suit::Clubs),
    ];
    let mut hand = CardSet::empty();
    for c in hand_cards {
        hand.insert_card(c).unwrap();
    }
    let contract = Deal::new(Contract::new(North, Bid::create_bid(Trump::Colored(Suit::Hearts), 2).unwrap()));
    let mut south = ContractAgentInfoSetSimple::new(South, hand, contract, None);
    south.update(ContractStateUpdate::new(East, PlaceCard(card(Figure::Ten, Suit::Spades)))).unwrap();
    let offered = south.available_actions();
    for p in 0..52u8 {
        let action = PlaceCard(Card::from_position(p));
        assert_eq!(offered.as_slice().contains(&action), south.is_action_valid(&action));
    }
    assert_eq!(offered.as_slice().len(), 2);
}

#[test]
fn side_rotation_laws() {
    for a in SIDES {
        for b in SIDES {
            let d = brydz_core::player::side::Side::difference(a, b);
            assert_eq!(a.next_i(d), b);
            assert_eq!((d + brydz_core::player::side::Side::difference(b, a)) % 4, 0);
        }
    }
}

#[test]
fn trump_orders_are_antisymmetric() {
    let cards = [
        card(Figure::Ace, Suit::Spades),
        card(Figure::Ten, Suit::Diamonds),
        card(Figure::Queen, Suit::Diamonds),
        card(Figure::Four, Suit::Spades),
        card(Figure::Ace, Suit::Hearts),
    ];
    for trump in [Trump::NoTrump, Trump::Colored(Suit::Diamonds), Trump::Colored(Suit::Clubs)] {
        for a in cards {
            for b in cards {
                assert_eq!(trump.order_cards(&a, &b), trump.order_cards(&b, &a).reverse());
                assert_eq!(trump.order_cards(&a, &b) == Ordering::Equal, a == b);
            }
        }
    }
    assert_eq!(trump_of(Suit::Diamonds).order_cards(&card(Figure::Two, Suit::Diamonds), &card(Figure::Ace, Suit::Spades)), Ordering::Greater);
}

fn trump_of(s: Suit) -> Trump {
    Trump::Colored(s)
}

#[test]
fn doubling_sequence() {
    let mut contract = Contract::new(North, Bid::create_bid(Trump::NoTrump, 3).unwrap());
    assert!(contract.redouble().is_err());
    assert!(contract.double().is_ok());
    assert!(contract.double().is_err());
    assert!(contract.redouble().is_ok());
    assert_eq!(contract.doubling(), Doubling::ReDouble);
}

#[test]
fn score_table_laws() {
    let contracted = PointsContractedTrick::standard();
    let over = PointsOverTrick::standard();
    let slam = PointsSlam::standard();
    let contract = Contract::new(North, Bid::create_bid(Trump::Colored(Suit::Spades), 4).unwrap());
    for taken in 0..=10u8 {
        assert_eq!(over.points(&contract, taken, true), 0);
        assert_eq!(slam.points(&contract, taken, true), 0);
        assert!(contracted.points(&contract, taken) <= contracted.points(&contract, taken + 1));
    }
    assert_eq!(over.points(&contract, 11, false), 30);
}

#[test]
fn side_subtraction_counts_places() {
    assert_eq!(North - East, 3);
    assert_eq!(North - South, 2);
    for a in SIDES {
        for b in SIDES {
            assert_eq!(a - b, brydz_core::player::side::Side::difference(b, a));
        }
    }
}

#[test]
fn used_cards_after_a_sequence_of_marks() {
    let marks = [
        card(Figure::Two, Suit::Clubs),
        card(Figure::Ace, Suit::Spades),
        card(Figure::Two, Suit::Clubs),
        card(Figure::Ten, Suit::Hearts),
    ];
    let mut reg = brydz_core::play::exhaust::UsedCards::new();
    for p in 0..52u8 {
        assert!(!reg.check_card(Card::from_position(p)));
    }
    for c in marks {
        reg.mark_used(c);
    }
    for p in 0..52u8 {
        let c = Card::from_position(p);
        assert_eq!(reg.check_card(c), marks.contains(&c));
    }
}
