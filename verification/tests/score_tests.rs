use brydz_core::card::Suit;
use brydz_core::play::contract::{Bid, Contract, Doubling};
use brydz_core::play::trump::Trump;
use brydz_core::player::axis::Axis;
use brydz_core::player::side::Side::North;
use brydz_core::score::calculation::{ScoreIngredient, ScoreTracker};
use brydz_core::score::rubber::{Game, GAME_WINNING_POINTS, RUBBER_WINNING_GAMES};
use brydz_core::score::sport::ScoreTableSport;
use brydz_core::score::tables::{PointsContractedTrick, PointsOverTrick, PointsSlam};

fn hearts(number: u8) -> Bid {
    Bid::create_bid(Trump::Colored(Suit::Hearts), number).unwrap()
}

#[test]
fn contracted_points_of_doc_examples() {
    let table = PointsContractedTrick::standard();
    let contract = Contract::new(North, hearts(2));
    assert_eq!(table.points(&contract, 7), 210);
    assert_eq!(table.points(&contract, 8), 240);
    assert_eq!(table.points(&contract, 9), 240);

    let contract = Contract::new_d(North, Bid::create_bid(Trump::NoTrump, 1).unwrap(), Doubling::ReDouble);
    assert_eq!(table.points(&contract, 6), 760);
    assert_eq!(table.points(&contract, 7), 880);
    assert_eq!(table.points(&contract, 8), 880);
}

#[test]
fn contracted_points_grow_with_tricks() {
    let table = PointsContractedTrick::standard();
    let contract = Contract::new(North, Bid::create_bid(Trump::Colored(Suit::Clubs), 4).unwrap());
    let mut last = table.points(&contract, 0);
    assert_eq!(last, 0);
    for taken in 1..=13u8 {
        let p = table.points(&contract, taken);
        assert!(p >= last);
        last = p;
    }
    assert_eq!(last, 10 * 20);
}

#[test]
fn overtrick_points_of_doc_examples() {
    let table = PointsOverTrick::standard();
    let contract = Contract::new(North, hearts(2));
    assert_eq!(table.points(&contract, 8, false), 0);
    assert_eq!(table.points(&contract, 10, false), 60);
    let contract = Contract::new_d(North, hearts(2), Doubling::Double);
    assert_eq!(table.points(&contract, 7, false), 0);
    assert_eq!(table.points(&contract, 10, false), 200);
    assert_eq!(table.points(&contract, 11, true), 600);
    let contract = Contract::new_d(North, hearts(2), Doubling::ReDouble);
    assert_eq!(table.points(&contract, 12, true), 1600);
}

#[test]
fn slam_points_of_doc_examples() {
    let table = PointsSlam::standard();
    let contract = Contract::new(North, hearts(2));
    assert_eq!(table.points(&contract, 13, false), 0);
    let contract = Contract::new(North, hearts(6));
    assert_eq!(table.points(&contract, 12, false), 500);
    assert_eq!(table.points(&contract, 12, true), 750);
    assert_eq!(table.points(&contract, 13, true), 750);
    assert_eq!(table.points(&contract, 11, true), 0);
    let contract = Contract::new_d(North, Bid::create_bid(Trump::NoTrump, 7).unwrap(), Doubling::ReDouble);
    assert_eq!(table.points(&contract, 12, false), 0);
    assert_eq!(table.points(&contract, 13, true), 1500);
    assert_eq!(table.points(&contract, 13, false), 1000);
}

#[test]
fn slam_ingredient_is_the_slam_table() {
    let table = PointsSlam::standard();
    let contract = Contract::new(North, hearts(6));
    assert_eq!(table.calculate(&contract, 12, true), 750);
    assert_eq!(table.calculate(&contract, 11, true), 0);
}

#[test]
fn sport_table_starts_even() {
    let table = ScoreTableSport::new(true, false);
    assert!(table.vulnerability(&Axis::NorthSouth));
    assert!(!table.vulnerability(&Axis::EastWest));
    assert_eq!(table.points(&Axis::NorthSouth), 0);
    assert_eq!(table.points(&Axis::EastWest), 0);
    assert_eq!(table.winner_axis(), None);
    let default = ScoreTableSport::default();
    assert!(!default.vulnerability(&Axis::NorthSouth));
    assert_eq!(default.winner_axis(), None);
}

#[test]
fn rubber_game_constants() {
    assert_eq!(GAME_WINNING_POINTS, 100);
    assert_eq!(RUBBER_WINNING_GAMES, 2);
    let game = Game::new(100);
    assert_eq!(game, Game::new(100));
}
