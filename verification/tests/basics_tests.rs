use brydz_core::card::{Card, CardError, CardSet, Figure, Suit};
use brydz_core::play::exhaust::{Exhaust, SuitExhaust, UsedCards};
use brydz_core::player::axis::Axis;
use brydz_core::player::side::Side::{East, North, South, West};
use brydz_core::player::side::{Side, SIDES};
use brydz_core::player::side_map::SideMap;
use brydz_core::state::hand_info::{HandInfo, HandInfoSimple};

#[test]
fn side_rotation() {
    assert_eq!(North.next(), East);
    assert_eq!(East.next(), South);
    assert_eq!(South.next(), West);
    assert_eq!(West.next(), North);
    for side in SIDES {
        assert_eq!(side.next().prev(), side);
        assert_eq!(side.prev().next(), side);
        assert_eq!(side.partner().partner(), side);
        assert_eq!(side.partner(), side.next().next());
        assert_eq!(side.next_i(4), side);
        assert_eq!(side.next_i(3), side.prev());
        assert_eq!(side.partner().axis(), side.axis());
    }
    assert_eq!(North.axis(), Axis::NorthSouth);
    assert_eq!(West.axis(), Axis::EastWest);
}

#[test]
fn side_difference_and_index() {
    assert_eq!(Side::difference(North, East), 1);
    assert_eq!(Side::difference(East, North), 3);
    assert_eq!(Side::difference(East, West), 2);
    assert_eq!(Side::difference(South, South), 0);
    assert_eq!(North.index(), 0);
    assert_eq!(East.index(), 1);
    assert_eq!(South.index(), 2);
    assert_eq!(West.index(), 3);
}

#[test]
fn side_map_access() {
    let mut m = SideMap::new(1, 2, 3, 4);
    assert_eq!(*m.get(&East), 2);
    m.set(&East, 7);
    assert_eq!(*m.get(&East), 7);
    assert_eq!(*m.get(&West), 4);
    assert_eq!(m.find(|x: &i32| *x > 5), Some(East));
    assert!(m.or(|x: &i32| *x == 3));
    assert!(!m.and(|x: &i32| *x == 3));
    assert_eq!(m.destruct(), (1, 7, 3, 4));
    assert!(SideMap::new_symmetric(5).are_all_equal());
    let (a, b) = SideMap::new((1, 'a'), (2, 'b'), (3, 'c'), (4, 'd')).split();
    assert_eq!(a, SideMap::new(1, 2, 3, 4));
    assert_eq!(b, SideMap::new('a', 'b', 'c', 'd'));
}

#[test]
fn card_positions_follow_the_deck_order() {
    assert_eq!(Card::new(Figure::Two, Suit::Clubs).position(), 0);
    assert_eq!(Card::new(Figure::Ace, Suit::Clubs).position(), 12);
    assert_eq!(Card::new(Figure::Ace, Suit::Diamonds).position(), 25);
    assert_eq!(Card::new(Figure::Four, Suit::Hearts).position(), 28);
    assert_eq!(Card::new(Figure::Ace, Suit::Spades).position(), 51);
    for p in 0..52u8 {
        assert_eq!(Card::from_position(p).position(), p);
    }
}

#[test]
fn card_set_insert_and_remove() {
    let queen = Card::new(Figure::Queen, Suit::Hearts);
    let two = Card::new(Figure::Two, Suit::Spades);
    let mut set = CardSet::empty();
    assert!(set.is_empty());
    assert_eq!(set.insert_card(queen), Ok(()));
    assert_eq!(set.insert_card(queen), Err(CardError::CardAlreadyInSet(queen)));
    assert!(set.contains(&queen));
    assert!(set.contains_in_suit(&Suit::Hearts));
    assert!(!set.contains_in_suit(&Suit::Spades));
    assert_eq!(set.remove_card(&two), Err(CardError::CardNotInSet(two)));
    set.insert_card(two).unwrap();
    assert_eq!(set.to_vec(), vec![queen, two]);
    assert_eq!(set.remove_card(&queen), Ok(()));
    assert!(!set.contains(&queen));
    assert_eq!(set.to_vec(), vec![two]);
}

#[test]
fn exhaust_bits_of_doc_example() {
    let mut exhaust = Exhaust::new();
    assert_eq!(exhaust.as_u16(), 0);
    exhaust.mark_exhausted(East, Suit::Diamonds);
    assert_eq!(exhaust.as_u16(), 0x0020);
    exhaust.mark_exhausted(North, Suit::Clubs);
    assert_eq!(exhaust.as_u16(), 0x0021);
    exhaust.mark_exhausted(South, Suit::Spades);
    assert_eq!(exhaust.as_u16(), 0x0821);
    exhaust.mark_exhausted(West, Suit::Hearts);
    assert_eq!(exhaust.as_u16(), 0x4821);
    assert!(exhaust.get_exhaust(South, Suit::Spades));
    assert!(!exhaust.get_exhaust(South, Suit::Hearts));
}

#[test]
fn suit_exhaust_rows_and_columns() {
    let mut exhaust = SuitExhaust::new();
    assert!(!exhaust.get_exhaust(West, Suit::Clubs));
    exhaust.exhaust(&West, &Suit::Clubs);
    assert!(exhaust.get_exhaust(West, Suit::Clubs));
    assert!(!exhaust.get_exhaust(North, Suit::Clubs));
    assert_eq!(exhaust.get_suit_exhaust(Suit::Clubs), [false, false, false, true]);
    assert_eq!(exhaust.get_side_exhaust(West), [false, false, false, true]);
}

#[test]
fn used_cards_mark_then_check() {
    let card = Card::new(Figure::King, Suit::Diamonds);
    let other = Card::new(Figure::King, Suit::Clubs);
    let mut used = UsedCards::new();
    assert!(!used.check_card(card));
    used.mark_used(card);
    assert!(used.check_card(card));
    assert!(!used.check_card(other));
}

#[test]
fn hand_info_keeps_the_hand() {
    let mut hand = CardSet::empty();
    hand.insert_card(Card::new(Figure::Nine, Suit::Hearts)).unwrap();
    let info = HandInfoSimple::new(hand);
    assert_eq!(info.own_cards(), hand);
}
