use brydz_core::card::{Card, Figure, Suit};
use brydz_core::play::card_trackers::{SuitExhaustRegister, SuitExhaustStd};
use brydz_core::play::contract::{Bid, Contract, Doubling};
use brydz_core::play::deal::{Deal, DealError};
use brydz_core::play::exhaust::{Exhaust, SuitExhaust, UsedCards};
use brydz_core::play::trick::{Trick, TrickError};
use brydz_core::play::trump::Trump;
use brydz_core::player::axis::Axis;
use brydz_core::player::side::Side;
use brydz_core::player::side::Side::{East, North, South, West};

fn card(figure: Figure, suit: Suit) -> Card {
    Card::new(figure, suit)
}

#[test]
fn add_card_records_exhausted_suits() {
    let mut exhaust_table = SuitExhaustStd::default();
    let mut trick1 = Trick::new(West);
    trick1.add_card(West, card(Figure::Jack, Suit::Clubs), &mut exhaust_table).unwrap();
    let r1 = trick1.add_card(North, card(Figure::Ten, Suit::Clubs), &mut exhaust_table);
    assert_eq!(r1, Ok(2));
    let r2 = trick1.add_card(East, card(Figure::Nine, Suit::Hearts), &mut exhaust_table);
    assert_eq!(r2, Ok(3));
    assert!(exhaust_table.is_exhausted(&East, &Suit::Clubs));
    let mut trick2 = Trick::new(East);
    let r3 = trick2.add_card(East, card(Figure::Nine, Suit::Clubs), &mut exhaust_table);
    assert_eq!(r3, Err(TrickError::UsedPreviouslyExhaustedSuit(Suit::Clubs)));
}

#[test]
fn trick_contains_and_completes() {
    let mut exhaust_register = SuitExhaustStd::default();
    let mut trick = Trick::new(North);
    trick.add_card(North, card(Figure::Jack, Suit::Spades), &mut exhaust_register).unwrap();
    assert!(trick.contains(&card(Figure::Jack, Suit::Spades)));
    assert!(!trick.contains(&card(Figure::Ace, Suit::Spades)));
    trick.add_card(East, card(Figure::Ace, Suit::Spades), &mut exhaust_register).unwrap();
    trick.add_card(South, card(Figure::Ace, Suit::Hearts), &mut exhaust_register).unwrap();
    assert!(!trick.is_complete());
    trick.add_card(West, card(Figure::Jack, Suit::Hearts), &mut exhaust_register).unwrap();
    assert!(trick.is_complete());
}

#[test]
fn tricks_collide_on_a_shared_card() {
    let mut trick1 = Trick::new(North);
    let mut exhaust_register = SuitExhaustStd::default();
    trick1.add_card(North, card(Figure::Jack, Suit::Spades), &mut exhaust_register).unwrap();
    trick1.add_card(East, card(Figure::Ace, Suit::Spades), &mut exhaust_register).unwrap();
    trick1.add_card(South, card(Figure::Ace, Suit::Hearts), &mut exhaust_register).unwrap();
    let mut trick2 = Trick::new(North);
    trick2.add_card(North, card(Figure::Jack, Suit::Hearts), &mut exhaust_register).unwrap();
    trick2.add_card(East, card(Figure::Ace, Suit::Diamonds), &mut exhaust_register).unwrap();
    assert_eq!(trick1.collision(&trick2), None);
    trick2.add_card(South, card(Figure::Ace, Suit::Hearts), &mut exhaust_register).unwrap();
    assert_eq!(trick1.collision(&trick2), Some(card(Figure::Ace, Suit::Hearts)));
}

#[test]
fn takers_of_doc_example() {
    let mut exhaust_register = SuitExhaustStd::default();
    let mut trick1 = Trick::new(North);
    trick1.add_card(North, card(Figure::Queen, Suit::Hearts), &mut exhaust_register).unwrap();
    trick1.add_card(East, card(Figure::Two, Suit::Clubs), &mut exhaust_register).unwrap();
    trick1.add_card(South, card(Figure::Ace, Suit::Spades), &mut exhaust_register).unwrap();
    trick1.add_card(West, card(Figure::Ten, Suit::Spades), &mut exhaust_register).unwrap();
    assert_eq!(trick1.taker(&Trump::Colored(Suit::Hearts)).unwrap(), North);
    let mut trick2 = Trick::new(North);
    trick2.add_card(North, card(Figure::Queen, Suit::Hearts), &mut exhaust_register).unwrap();
    trick2.add_card(East, card(Figure::Two, Suit::Clubs), &mut exhaust_register).unwrap();
    trick2.add_card(South, card(Figure::Ace, Suit::Spades), &mut exhaust_register).unwrap();
    trick2.add_card(West, card(Figure::Ten, Suit::Spades), &mut exhaust_register).unwrap();
    assert_eq!(trick2.taker(&Trump::Colored(Suit::Clubs)).unwrap(), East);
    let mut trick3 = Trick::new(East);
    trick3.add_card(East, card(Figure::Ace, Suit::Clubs), &mut exhaust_register).unwrap();
    trick3.add_card(South, card(Figure::Ace, Suit::Spades), &mut exhaust_register).unwrap();
    trick3.add_card(West, card(Figure::Ten, Suit::Spades), &mut exhaust_register).unwrap();
    trick3.add_card(North, card(Figure::Queen, Suit::Hearts), &mut exhaust_register).unwrap();
    assert_eq!(trick3.taker(&Trump::NoTrump).unwrap(), East);
}

#[test]
fn insert_card_of_doc_example() {
    let mut deal = Deal::new(Contract::new(West, Bid::create_bid(Trump::Colored(Suit::Hearts), 1).unwrap()));
    deal.insert_card(North, card(Figure::King, Suit::Hearts)).unwrap();
    deal.insert_card(East, card(Figure::Ace, Suit::Hearts)).unwrap();
    deal.insert_card(South, card(Figure::Two, Suit::Clubs)).unwrap();
    assert_eq!(deal.completed_tricks(), 0);
    let r = deal.insert_card(West, card(Figure::Seven, Suit::Hearts));
    assert_eq!(r.unwrap(), East);
    assert_eq!(deal.completed_tricks(), 1);
    assert_eq!(deal.side_winning_trick(0).unwrap(), East);
    let r = deal.insert_card(East, card(Figure::Ten, Suit::Hearts));
    assert_eq!(r.unwrap(), South);
    let r = deal.insert_card(South, card(Figure::Jack, Suit::Hearts));
    assert_eq!(r, Err(DealError::TrickError(TrickError::UsedPreviouslyExhaustedSuit(Suit::Hearts))));
    deal.insert_card(South, card(Figure::Two, Suit::Clubs)).unwrap();
    deal.insert_card(West, card(Figure::Six, Suit::Hearts)).unwrap();
    let r = deal.insert_card(North, card(Figure::Three, Suit::Hearts));
    assert_eq!(r, Err(DealError::DuplicateCard(card(Figure::Two, Suit::Clubs))));
    assert_eq!(deal.completed_tricks(), 1);
}

#[test]
fn side_winning_trick_of_doc_example() {
    let mut deal_1 = Deal::new(Contract::new_d(
        North,
        Bid::create_bid(Trump::Colored(Suit::Diamonds), 1).unwrap(),
        Doubling::NoDoubling,
    ));
    deal_1.insert_card(East, card(Figure::King, Suit::Spades)).unwrap();
    deal_1.insert_card(South, card(Figure::Queen, Suit::Spades)).unwrap();
    deal_1.insert_card(West, card(Figure::Jack, Suit::Spades)).unwrap();
    deal_1.insert_card(North, card(Figure::Ace, Suit::Spades)).unwrap();
    assert_eq!(deal_1.side_winning_trick(0), Ok(North));

    let mut deal_2 = Deal::new(Contract::new_d(West, Bid::create_bid(Trump::NoTrump, 1).unwrap(), Doubling::NoDoubling));
    deal_2.insert_card(North, card(Figure::Two, Suit::Diamonds)).unwrap();
    deal_2.insert_card(East, card(Figure::Ace, Suit::Clubs)).unwrap();
    deal_2.insert_card(South, card(Figure::Queen, Suit::Clubs)).unwrap();
    deal_2.insert_card(West, card(Figure::Three, Suit::Diamonds)).unwrap();
    assert_eq!(deal_2.side_winning_trick(0), Ok(West));
    deal_2.insert_card(West, card(Figure::Four, Suit::Diamonds)).unwrap();
    deal_2.insert_card(North, card(Figure::Jack, Suit::Diamonds)).unwrap();
    deal_2.insert_card(East, card(Figure::King, Suit::Clubs)).unwrap();
    deal_2.insert_card(South, card(Figure::Nine, Suit::Spades)).unwrap();
    assert_eq!(deal_2.side_winning_trick(1), Ok(North));
}

fn three_tricks() -> Deal {
    let mut deal = Deal::new(Contract::new(West, Bid::create_bid(Trump::Colored(Suit::Diamonds), 1).unwrap()));
    deal.insert_card(North, card(Figure::Jack, Suit::Spades)).unwrap();
    deal.insert_card(East, card(Figure::Ten, Suit::Spades)).unwrap();
    deal.insert_card(South, card(Figure::Four, Suit::Spades)).unwrap();
    deal.insert_card(West, card(Figure::Five, Suit::Diamonds)).unwrap();

    deal.insert_card(West, card(Figure::Eight, Suit::Hearts)).unwrap();
    deal.insert_card(North, card(Figure::Jack, Suit::Diamonds)).unwrap();
    deal.insert_card(East, card(Figure::King, Suit::Hearts)).unwrap();
    deal.insert_card(South, card(Figure::Nine, Suit::Hearts)).unwrap();

    deal.insert_card(North, card(Figure::Ace, Suit::Clubs)).unwrap();
    deal.insert_card(East, card(Figure::Queen, Suit::Spades)).unwrap();
    deal.insert_card(South, card(Figure::Seven, Suit::Hearts)).unwrap();
    deal.insert_card(West, card(Figure::Four, Suit::Clubs)).unwrap();
    deal
}

#[test]
fn tricks_taken_of_doc_example() {
    let deal = three_tricks();
    assert_eq!(deal.tricks_taken(North), 2);
    assert_eq!(deal.tricks_taken(West), 1);
    assert_eq!(deal.tricks_taken(South), 0);
    assert_eq!(deal.tricks_taken(East), 0);
}

#[test]
fn tricks_taken_axis_of_doc_example() {
    let deal = three_tricks();
    assert_eq!(deal.tricks_taken_axis(Axis::NorthSouth), 2);
    assert_eq!(deal.tricks_taken_axis(Axis::EastWest), 1);
}

#[test]
fn bids_order_of_doc_example() {
    let bid1 = Bid::create_bid(Trump::NoTrump, 2).unwrap();
    let bid2 = Bid::create_bid(Trump::Colored(Suit::Spades), 3).unwrap();
    let bid3 = Bid::create_bid(Trump::Colored(Suit::Clubs), 3).unwrap();
    let bid4 = Bid::create_bid(Trump::Colored(Suit::Hearts), 4).unwrap();
    let bid5 = Bid::create_bid(Trump::Colored(Suit::Diamonds), 2).unwrap();
    assert!(bid1 < bid2);
    assert!(bid2 > bid3);
    assert!(bid2 < bid4);
    assert!(bid1 > bid5);
}

#[test]
fn used_cards_of_doc_example() {
    let jack = card(Figure::Jack, Suit::Hearts);
    let mut reg = UsedCards::new();
    assert!(!reg.check_card(jack));
    reg.mark_used(jack);
    assert!(reg.check_card(jack));
}

#[test]
fn used_cards_collision_of_doc_example() {
    let mut register = UsedCards::new();
    let mut exhaust_register = SuitExhaustStd::default();
    let mut trick = Trick::new(East);
    trick.add_card(East, card(Figure::Jack, Suit::Hearts), &mut exhaust_register).unwrap();
    trick.add_card(South, card(Figure::Queen, Suit::Hearts), &mut exhaust_register).unwrap();
    trick.add_card(West, card(Figure::Ten, Suit::Clubs), &mut exhaust_register).unwrap();
    trick.add_card(North, card(Figure::Eight, Suit::Diamonds), &mut exhaust_register).unwrap();
    assert_eq!(register.trick_collision(trick), None);
    register.mark_used(card(Figure::Queen, Suit::Hearts));
    assert_eq!(register.trick_collision(trick), Some(card(Figure::Queen, Suit::Hearts)));
    let mut all = UsedCards::new();
    all.mark_used_trick(&trick);
    assert!(all.check_card(card(Figure::Ten, Suit::Clubs)));
    assert!(!all.check_card(card(Figure::Ten, Suit::Hearts)));
}

#[test]
fn exhaust_of_doc_examples() {
    let mut ex_reg = Exhaust::new();
    assert!(!ex_reg.get_exhaust(East, Suit::Diamonds));
    ex_reg.mark_exhausted(East, Suit::Diamonds);
    assert!(ex_reg.get_exhaust(East, Suit::Diamonds));

    let mut exhaust = SuitExhaust::new();
    assert!(!exhaust.get_exhaust(North, Suit::Spades));
    exhaust.exhaust(&North, &Suit::Spades);
    assert!(exhaust.get_exhaust(North, Suit::Spades));
}

#[test]
fn side_is_one_byte() {
    assert_eq!(std::mem::size_of::<Side>(), 1);
}
