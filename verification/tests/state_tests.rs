use brydz_core::card::{Card, CardSet, Figure, Suit};
use brydz_core::play::contract::{Bid, Contract};
use brydz_core::play::deal::Deal;
use brydz_core::play::trump::Trump;
use brydz_core::player::side::Side::{East, North, South, West};
use brydz_core::state::action::ContractAction::{PlaceCard, ShowHand};
use brydz_core::state::action::ContractStateUpdate;
use brydz_core::state::agent::ContractAgentInfoSetSimple;

fn figure_of(symbol: char) -> Figure {
    match symbol {
        '2' => Figure::Two,
        '3' => Figure::Three,
        '4' => Figure::Four,
        '5' => Figure::Five,
        '6' => Figure::Six,
        '7' => Figure::Seven,
        '8' => Figure::Eight,
        '9' => Figure::Nine,
        'T' => Figure::Ten,
        'J' => Figure::Jack,
        'Q' => Figure::Queen,
        'K' => Figure::King,
        'A' => Figure::Ace,
        _ => panic!("no figure {symbol}"),
    }
}

/// A hand written as spades.hearts.diamonds.clubs, figures by their symbols.
fn hand(text: &str) -> CardSet {
    let suits = [Suit::Spades, Suit::Hearts, Suit::Diamonds, Suit::Clubs];
    let mut set = CardSet::empty();
    for (part, suit) in text.split('.').zip(suits) {
        for symbol in part.chars() {
            set.insert_card(Card::new(figure_of(symbol), suit)).unwrap();
        }
    }
    set
}

#[test]
fn convert_simple_info_set_to_bytes() {
    let contract = Deal::new(Contract::new(East, Bid::create_bid(Trump::Colored(Suit::Hearts), 2).unwrap()));
    let mut info_set = ContractAgentInfoSetSimple::new(North, hand("AT86.KJT93.4T.2A"), contract, None);

    let state_as_vec: [u8; 222] = info_set.to_bytes();
    assert_eq!(
        Vec::from(state_as_vec),
        vec![
            120, 0, 0, 0, 0, 0, 0, 0, 0, 0, 0, 0, 120,
            0, 0, 120, 0, 0, 0, 0, 0, 120, 0, 0, 0, 0,
            0, 120, 0, 0, 0, 0, 0, 120, 120, 120, 0, 120, 0,
            0, 0, 0, 0, 120, 0, 120, 0, 120, 0, 0, 0, 120,
            0, 40, 40, 40, 40, 40, 40, 40, 40, 40, 40, 40, 0,
            40, 40, 0, 40, 40, 40, 40, 40, 0, 40, 40, 40, 40,
            40, 0, 40, 40, 40, 40, 40, 0, 0, 0, 40, 0, 40,
            40, 40, 40, 40, 0, 40, 0, 40, 0, 40, 40, 40, 0,
            0, 40, 40, 40, 40, 40, 40, 40, 40, 40, 40, 40, 0,
            40, 40, 0, 40, 40, 40, 40, 40, 0, 40, 40, 40, 40,
            40, 0, 40, 40, 40, 40, 40, 0, 0, 0, 40, 0, 40,
            40, 40, 40, 40, 0, 40, 0, 40, 0, 40, 40, 40, 0,
            0, 40, 40, 40, 40, 40, 40, 40, 40, 40, 40, 40, 0,
            40, 40, 0, 40, 40, 40, 40, 40, 0, 40, 40, 40, 40,
            40, 0, 40, 40, 40, 40, 40, 0, 0, 0, 40, 0, 40,
            40, 40, 40, 40, 0, 40, 0, 40, 0, 40, 40, 40, 0,
            1, 0, 0, 0, 0, 0, 0, 0, 0, 0, 3, 2, 0, 0,
        ]
    );

    info_set.update(ContractStateUpdate::new(South, PlaceCard(Card::new(Figure::Ace, Suit::Diamonds)))).unwrap();
    let state_as_vec: [u8; 222] = info_set.to_bytes();
    assert_eq!(
        Vec::from(state_as_vec),
        vec![
            120, 0, 0, 0, 0, 0, 0, 0, 0, 0, 0, 0, 120,
            0, 0, 120, 0, 0, 0, 0, 0, 120, 0, 0, 0, 0,
            0, 120, 0, 0, 0, 0, 0, 120, 120, 120, 0, 120, 0,
            0, 0, 0, 0, 120, 0, 120, 0, 120, 0, 0, 0, 120,
            0, 40, 40, 40, 40, 40, 40, 40, 40, 40, 40, 40, 0,
            40, 40, 0, 40, 40, 40, 40, 40, 0, 40, 40, 40, 0,
            40, 0, 40, 40, 40, 40, 40, 0, 0, 0, 40, 0, 40,
            40, 40, 40, 40, 0, 40, 0, 40, 0, 40, 40, 40, 0,
            0, 40, 40, 40, 40, 40, 40, 40, 40, 40, 40, 40, 0,
            40, 40, 0, 40, 40, 40, 40, 40, 0, 40, 40, 40, 0,
            40, 0, 40, 40, 40, 40, 40, 0, 0, 0, 40, 0, 40,
            40, 40, 40, 40, 0, 40, 0, 40, 0, 40, 40, 40, 0,
            0, 40, 40, 40, 40, 40, 40, 40, 40, 40, 40, 40, 0,
            40, 40, 0, 40, 40, 40, 40, 40, 0, 40, 40, 40, 0,
            40, 0, 40, 40, 40, 40, 40, 0, 0, 0, 40, 0, 40,
            40, 40, 40, 40, 0, 40, 0, 40, 0, 40, 40, 40, 0,
            1, 1, 0, 0, 0, 0, 2, 13, 0, 0, 3, 2, 0, 1,
        ]
    );

    info_set.update(ContractStateUpdate::new(West, ShowHand(hand("QJ3.8764.A95.T96")))).unwrap();
    info_set.update(ContractStateUpdate::new(West, PlaceCard(Card::new(Figure::Five, Suit::Diamonds)))).unwrap();

    let state_as_vec: [u8; 222] = info_set.to_bytes();
    assert_eq!(
        Vec::from(state_as_vec),
        vec![
            120, 0, 0, 0, 0, 0, 0, 0, 0, 0, 0, 0, 120,
            0, 0, 120, 0, 0, 0, 0, 0, 120, 0, 0, 0, 0,
            0, 120, 0, 0, 0, 0, 0, 120, 120, 120, 0, 120, 0,
            0, 0, 0, 0, 120, 0, 120, 0, 120, 0, 0, 0, 120,
            0, 60, 60, 60, 0, 60, 60, 0, 0, 60, 60, 60, 0,
            60, 60, 0, 0, 60, 60, 60, 0, 0, 60, 60, 60, 0,
            60, 0, 0, 60, 0, 0, 0, 0, 0, 0, 60, 0, 60,
            60, 0, 60, 60, 0, 60, 0, 60, 0, 0, 0, 60, 0,
            0, 60, 60, 60, 0, 60, 60, 0, 0, 60, 60, 60, 0,
            60, 60, 0, 0, 60, 60, 60, 0, 0, 60, 60, 60, 0,
            60, 0, 0, 60, 0, 0, 0, 0, 0, 0, 60, 0, 60,
            60, 0, 60, 60, 0, 60, 0, 60, 0, 0, 0, 60, 0,
            0, 0, 0, 0, 120, 0, 0, 120, 120, 0, 0, 0, 0,
            0, 0, 0, 0, 0, 0, 0, 120, 0, 0, 0, 0, 0,
            0, 0, 120, 0, 120, 120, 120, 0, 0, 0, 0, 0, 0,
            0, 120, 0, 0, 0, 0, 0, 0, 0, 120, 120, 0, 0,
            1, 2, 0, 0, 0, 0, 2, 13, 2, 4, 3, 2, 0, 0,
        ]
    );
}
