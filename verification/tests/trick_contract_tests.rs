use std::cmp::Ordering;

use brydz_core::card::{Card, Figure, Suit};
use brydz_core::play::card_trackers::SuitExhaustStd;
use brydz_core::play::contract::{AuctionError, Bid, Contract, Doubling};
use brydz_core::play::deal::{Deal, DealError};
use brydz_core::play::deck::Deck;
use brydz_core::play::trick::{Mismatch, Trick, TrickError};
use brydz_core::play::trump::{trumps, Trump};
use brydz_core::player::axis::Axis;
use brydz_core::player::side::Side::{East, North, South, West};

fn card(figure: Figure, suit: Suit) -> Card {
    Card::new(figure, suit)
}

fn full_trick(first: brydz_core::player::side::Side, cards: [Card; 4]) -> Trick {
    let mut exhaust = SuitExhaustStd::new();
    let mut trick = Trick::new(first);
    let mut side = first;
    for c in cards {
        trick.add_card(side, c, &mut exhaust).unwrap();
        side = side.next();
    }
    trick
}

#[test]
fn trick_refusals() {
    let mut exhaust = SuitExhaustStd::new();
    let mut trick = Trick::new(North);
    let queen = card(Figure::Queen, Suit::Hearts);
    assert_eq!(
        trick.add_card(East, queen, &mut exhaust),
        Err(TrickError::ViolatedOrder(Mismatch { expected: North, found: East }))
    );
    assert_eq!(trick.add_card(North, queen, &mut exhaust), Ok(1));
    assert_eq!(trick.add_card(East, queen, &mut exhaust), Err(TrickError::DuplicateCard(queen)));
    assert_eq!(trick.add_card(East, card(Figure::Two, Suit::Clubs), &mut exhaust), Ok(2));
    assert!(exhaust.as_u16() != 0);
    assert_eq!(trick.missing_card(), Some(South));
    assert_eq!(trick.taker(&Trump::NoTrump), Err(TrickError::MissingCard(South)));
    assert_eq!(trick.called_suit(), Some(Suit::Hearts));
    assert_eq!(trick.count_cards(), 2);
    assert!(!trick.is_complete());
    assert!(!trick.is_empty());
    assert!(trick.contains(&queen));
    assert_eq!(trick.get(North), Some(queen));
    assert_eq!(trick.get(West), None);
    assert_eq!(trick.prepare_new(Trump::NoTrump), None);

    let mut next = Trick::new(East);
    assert_eq!(
        next.add_card(East, card(Figure::Three, Suit::Hearts), &mut exhaust),
        Err(TrickError::UsedPreviouslyExhaustedSuit(Suit::Hearts))
    );
}

#[test]
fn trick_takers() {
    // led by south with the queen of hearts; west trumps with a club
    let trick = full_trick(
        South,
        [
            card(Figure::Queen, Suit::Hearts),
            card(Figure::Two, Suit::Clubs),
            card(Figure::Ace, Suit::Hearts),
            card(Figure::Ten, Suit::Hearts),
        ],
    );
    assert!(trick.is_complete());
    assert_eq!(trick.taker(&Trump::Colored(Suit::Clubs)), Ok(West));
    assert_eq!(trick.taker(&Trump::NoTrump), Ok(North));
    assert_eq!(trick.taker(&Trump::Colored(Suit::Spades)), Ok(North));
    let new = trick.prepare_new(Trump::Colored(Suit::Clubs)).unwrap();
    assert_eq!(new.first_player_side(), West);
    assert!(new.is_empty());
}

#[test]
fn trick_collisions() {
    let a = full_trick(
        North,
        [
            card(Figure::Two, Suit::Spades),
            card(Figure::Three, Suit::Spades),
            card(Figure::Four, Suit::Spades),
            card(Figure::Five, Suit::Spades),
        ],
    );
    let b = full_trick(
        East,
        [
            card(Figure::Six, Suit::Spades),
            card(Figure::Seven, Suit::Spades),
            card(Figure::Four, Suit::Spades),
            card(Figure::Nine, Suit::Spades),
        ],
    );
    let c = full_trick(
        East,
        [
            card(Figure::Six, Suit::Hearts),
            card(Figure::Seven, Suit::Hearts),
            card(Figure::Eight, Suit::Hearts),
            card(Figure::Nine, Suit::Hearts),
        ],
    );
    assert_eq!(a.collision(&b), Some(card(Figure::Four, Suit::Spades)));
    assert_eq!(b.collision(&a), Some(card(Figure::Four, Suit::Spades)));
    assert!(a.collides(&b));
    assert!(!a.collides(&c));
    assert_eq!(c.collision(&a), None);
}

#[test]
fn trump_order() {
    assert_eq!(trumps(), [
        Trump::Colored(Suit::Spades),
        Trump::Colored(Suit::Hearts),
        Trump::Colored(Suit::Diamonds),
        Trump::Colored(Suit::Clubs),
        Trump::NoTrump,
    ]);
    assert_eq!(Trump::NoTrump.order(&Trump::Colored(Suit::Spades)), Ordering::Greater);
    assert_eq!(Trump::Colored(Suit::Clubs).order(&Trump::Colored(Suit::Diamonds)), Ordering::Less);
    assert_eq!(Trump::Colored(Suit::Hearts).order(&Trump::Colored(Suit::Hearts)), Ordering::Equal);
    assert!(Trump::Colored(Suit::Hearts) < Trump::NoTrump);
}

#[test]
fn bids_and_doubling() {
    assert_eq!(Bid::create_bid(Trump::NoTrump, 0), Err(AuctionError::IllegalBidNumber(0)));
    assert_eq!(Bid::create_bid(Trump::NoTrump, 8), Err(AuctionError::IllegalBidNumber(8)));
    let one_nt = Bid::create_bid(Trump::NoTrump, 1).unwrap();
    let two_clubs = Bid::create_bid(Trump::Colored(Suit::Clubs), 2).unwrap();
    let one_spade = Bid::create_bid(Trump::Colored(Suit::Spades), 1).unwrap();
    assert_eq!(one_nt.number_normalised(), 7);
    assert_eq!(one_nt.order(&two_clubs), Ordering::Less);
    assert_eq!(one_nt.order(&one_spade), Ordering::Greater);
    assert!(one_spade < one_nt);

    let mut contract = Contract::new(South, two_clubs);
    assert_eq!(contract.declarer(), South);
    assert_eq!(contract.dummy(), North);
    assert_eq!(contract.doubling(), Doubling::NoDoubling);
    assert_eq!(contract.redouble(), Err(AuctionError::ReDoubleWithoutDouble));
    assert_eq!(contract.double(), Ok(()));
    assert_eq!(contract.double(), Err(AuctionError::DoubleAfterDouble));
    assert_eq!(contract.redouble(), Ok(()));
    assert_eq!(contract.doubling(), Doubling::ReDouble);
    assert_eq!(contract.double(), Err(AuctionError::DoubleAfterReDouble));
    assert_eq!(contract.redouble(), Err(AuctionError::ReDoubleAfterReDouble));
}

#[test]
fn deal_flow_and_errors() {
    let contract = Contract::new(East, Bid::create_bid(Trump::Colored(Suit::Diamonds), 3).unwrap());
    let mut deal = Deal::new(contract);
    assert_eq!(deal.declarer(), East);
    assert_eq!(deal.dummy(), West);
    assert_eq!(deal.current_side(), Some(South));
    assert_eq!(deal.last_completed_trick(), None);
    assert_eq!(deal.init_new_trick().unwrap().first_player_side(), North);
    assert_eq!(
        deal.insert_card(West, card(Figure::Ace, Suit::Spades)),
        Err(DealError::TrickError(TrickError::ViolatedOrder(Mismatch { expected: South, found: West })))
    );
    assert_eq!(deal.insert_card(South, card(Figure::Ace, Suit::Spades)), Ok(West));
    assert_eq!(deal.insert_card(West, card(Figure::Three, Suit::Spades)), Ok(North));
    assert_eq!(deal.insert_card(North, card(Figure::Four, Suit::Spades)), Ok(East));
    assert_eq!(deal.insert_card(East, card(Figure::Six, Suit::Diamonds)), Ok(East));
    assert_eq!(deal.completed_tricks(), 1);
    assert_eq!(deal.side_winning_trick(0), Ok(East));
    assert_eq!(deal.side_winning_trick(1), Err(DealError::IndexedOverCurrentTrick(1)));
    assert_eq!(deal.tricks_taken(East), 1);
    assert_eq!(deal.tricks_taken_axis(Axis::EastWest), 1);
    assert_eq!(deal.tricks_taken_axis(Axis::NorthSouth), 0);
    assert_eq!(deal.current_side(), Some(East));
    assert!(deal.used_cards().is_card_used(&card(Figure::Ace, Suit::Spades)));
    assert!(!deal.used_cards().is_card_used(&card(Figure::Ace, Suit::Hearts)));
    assert_eq!(deal.last_completed_trick(), Some(deal.completed_trick(0)));
    assert_eq!(deal.init_new_trick().unwrap().first_player_side(), East);
    // east showed out of spades when it trumped
    assert!(deal.suits_exhausted().as_u16() != 0);
    assert!(!deal.is_completed());
}

#[test]
fn decks_hold_every_card_once() {
    let by_suits = Deck::new_sorted_by_suits();
    let by_figures = Deck::new_sorted_by_figures();
    assert_eq!(by_suits.len(), 52);
    assert_eq!(by_figures.len(), 52);
    assert_eq!(by_suits.at(0), card(Figure::Ace, Suit::Spades));
    assert_eq!(by_suits.at(1), card(Figure::King, Suit::Spades));
    assert_eq!(by_suits.at(51), card(Figure::Two, Suit::Clubs));
    let mut sorted = by_figures.to_vec();
    sorted.sort_by_key(|c| c.position());
    let mut expected = by_suits.to_vec();
    expected.sort_by_key(|c| c.position());
    assert_eq!(sorted, expected);
    for p in 0..52u8 {
        assert_eq!(expected[p as usize].position(), p);
    }
}

#[test]
fn shuffle_keeps_the_cards() {
    let mut deck = Deck::new_sorted_by_suits();
    let before = deck.to_vec();
    deck.shuffle();
    let mut after = deck.to_vec();
    assert_eq!(after.len(), 52);
    assert_eq!(deck.cards().len(), 52);
    after.sort_by_key(|c| c.position());
    let mut sorted_before = before.clone();
    sorted_before.sort_by_key(|c| c.position());
    assert_eq!(after, sorted_before);
}

#[test]
fn full_trick_refuses_another_card() {
    let mut exhaust = SuitExhaustStd::new();
    let mut trick = full_trick(
        West,
        [
            card(Figure::Two, Suit::Hearts),
            card(Figure::Three, Suit::Hearts),
            card(Figure::Four, Suit::Hearts),
            card(Figure::Five, Suit::Hearts),
        ],
    );
    assert_eq!(
        trick.add_card(West, card(Figure::Six, Suit::Hearts), &mut exhaust),
        Err(TrickError::CardSlotAlreadyUsed(West))
    );
}

#[test]
fn shuffle_changes_the_order() {
    let mut deck = Deck::new_sorted_by_suits();
    deck.shuffle();
    assert_ne!(deck.to_vec(), Deck::new_sorted_by_suits().to_vec());
}
