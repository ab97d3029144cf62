use brydz_core::card::{Card, CardError, CardSet, Figure, Suit};
use brydz_core::error::{BridgeCoreError, FlowError};
use brydz_core::overseer::simple::{
    ControlCommand, Delivery, OverseerCore, OverseerEvent, OverseerPhase,
};
use brydz_core::play::contract::{Bid, Contract};
use brydz_core::play::deal::{Deal, DealError};
use brydz_core::play::trick::{Mismatch, TrickError};
use brydz_core::play::trump::Trump;
use brydz_core::player::side::Side;
use brydz_core::player::side::Side::{East, North, South, West};
use brydz_core::player::situation::Situation;
use brydz_core::protocol::client::{ClientControlMessage, ClientDealInformation, ClientMessage, DealAction};
use brydz_core::protocol::server::{DealNotify, ServerControlMessage, ServerDealMessage, ServerMessage};
use brydz_core::state::action::ContractAction::{PlaceCard, ShowHand};
use brydz_core::state::action::{ContractAction, ContractStateUpdate};
use brydz_core::state::agent::ContractAgentInfoSetSimple;
use brydz_core::state::dummy::ContractDummyState;
use brydz_core::state::env::{ContractEnv, ContractEnvStateMin};

fn card(figure: Figure, suit: Suit) -> Card {
    Card::new(figure, suit)
}

fn set(cards: &[Card]) -> CardSet {
    let mut s = CardSet::empty();
    for c in cards {
        s.insert_card(*c).unwrap();
    }
    s
}

/// East declares three diamonds; south leads.
fn new_deal() -> Deal {
    Deal::new(Contract::new(East, Bid::create_bid(Trump::Colored(Suit::Diamonds), 3).unwrap()))
}

#[test]
fn agent_plays_from_its_hand() {
    let ace = card(Figure::Ace, Suit::Spades);
    let two_hearts = card(Figure::Two, Suit::Hearts);
    let hand = set(&[ace, two_hearts, card(Figure::Three, Suit::Spades)]);
    let mut south = ContractAgentInfoSetSimple::new(South, hand, new_deal(), None);
    let offered: Vec<ContractAction> = south.available_actions().as_slice().to_vec();
    assert_eq!(offered.len(), 3);
    assert!(offered.contains(&PlaceCard(ace)));
    assert!(south.is_action_valid(&PlaceCard(two_hearts)));
    assert!(!south.is_action_valid(&ShowHand(hand)));
    assert_eq!(south.update(ContractStateUpdate::new(South, PlaceCard(ace))), Ok(()));
    assert!(!south.hand().contains(&ace));
    assert!(south.available_actions().as_slice().is_empty());
    assert_eq!(south.current_score(), 0);
    assert!(!south.is_finished());
    assert_eq!(*south.id(), South);
}

#[test]
fn agent_must_follow_suit() {
    let spade = card(Figure::Ten, Suit::Spades);
    let heart = card(Figure::Ten, Suit::Hearts);
    let mut west = ContractAgentInfoSetSimple::new(West, set(&[spade, heart]), new_deal(), None);
    west.update(ContractStateUpdate::new(South, PlaceCard(card(Figure::Ace, Suit::Spades)))).unwrap();
    let offered = west.available_actions();
    assert_eq!(offered.as_slice(), &[PlaceCard(spade)]);
    assert!(west.is_action_valid(&PlaceCard(spade)));
    assert!(!west.is_action_valid(&PlaceCard(heart)));
}

#[test]
fn agent_refuses_a_card_it_does_not_hold() {
    let mut south = ContractAgentInfoSetSimple::new(South, CardSet::empty(), new_deal(), None);
    let ace = card(Figure::Ace, Suit::Spades);
    assert_eq!(
        south.update(ContractStateUpdate::new(South, PlaceCard(ace))),
        Err(BridgeCoreError::Hand(CardError::CardNotInSet(ace)))
    );
    assert_eq!(
        south.update(ContractStateUpdate::new(North, PlaceCard(ace))),
        Err(BridgeCoreError::Deal(DealError::TrickError(TrickError::ViolatedOrder(Mismatch {
            expected: West,
            found: North
        }))))
    );
}

#[test]
fn dummy_state_shows_its_hand() {
    let hand = set(&[card(Figure::Two, Suit::Clubs)]);
    let mut dummy = ContractDummyState::new(West, hand, new_deal());
    assert!(dummy.available_actions().as_slice().is_empty());
    assert!(dummy.is_action_valid(&ShowHand(hand)));
    assert!(!dummy.is_action_valid(&PlaceCard(card(Figure::Two, Suit::Clubs))));
    dummy.update(ContractStateUpdate::new(South, PlaceCard(card(Figure::Ace, Suit::Spades)))).unwrap();
    assert_eq!(dummy.available_actions().as_slice(), &[ShowHand(hand)]);
    assert_eq!(*dummy.id(), West);
    assert!(!dummy.is_finished());
}

#[test]
fn environment_credits_the_declarer_card_to_the_dummy() {
    let dummy_hand = set(&[card(Figure::Two, Suit::Spades), card(Figure::Two, Suit::Hearts)]);
    let state = ContractEnvStateMin::new(new_deal(), None);
    let mut env = ContractEnv::new(state);
    assert_eq!(env.state().current_player(), Some(South));
    let updates = env.process_action(South, PlaceCard(card(Figure::Ace, Suit::Spades))).unwrap();
    let u = ContractStateUpdate::new(South, PlaceCard(card(Figure::Ace, Suit::Spades)));
    assert_eq!(updates, [(North, u), (East, u), (South, u), (West, u)]);
    // the dummy is due and has not shown its hand: the dummy itself is awaited
    assert_eq!(env.state().current_player(), Some(West));
    env.process_action(West, ShowHand(dummy_hand)).unwrap();
    assert_eq!(env.state().current_player(), Some(East));
    let updates = env.process_action(East, PlaceCard(card(Figure::Two, Suit::Spades))).unwrap();
    let credited = ContractStateUpdate::new(West, PlaceCard(card(Figure::Two, Suit::Spades)));
    assert_eq!(updates[0], (North, credited));
    assert_eq!(env.state().contract().current_side(), Some(North));
}

#[test]
fn environment_penalises_illegal_actions() {
    let mut env = ContractEnv::new(ContractEnvStateMin::new(new_deal(), None));
    assert_eq!(env.actual_penalty_score_of_player(&North), 0);
    let r = env.process_action_penalise_illegal(North, PlaceCard(card(Figure::Ace, Suit::Spades)), -5);
    assert!(r.is_err());
    assert_eq!(env.actual_penalty_score_of_player(&North), -5);
    assert_eq!(env.actual_penalty_score_of_player(&South), 0);
    let r = env.process_action_penalise_illegal(South, PlaceCard(card(Figure::Ace, Suit::Spades)), -5);
    assert!(r.is_ok());
    assert_eq!(env.actual_penalty_score_of_player(&South), 0);
    env.replace_state(ContractEnvStateMin::new(new_deal(), None));
    assert_eq!(env.actual_penalty_score_of_player(&North), -5);
    assert_eq!(env.state().current_player(), Some(South));
}

#[test]
fn situation_marks_cards_of_the_side_due() {
    let hand = set(&[card(Figure::Ace, Suit::Spades)]);
    let mut situation = Situation::new(North, hand, Contract::new(East, Bid::create_bid(Trump::NoTrump, 1).unwrap()));
    assert_eq!(situation.side(), North);
    assert_eq!(situation.cards_hand(), hand);
    assert!(situation.cards_dummy().is_empty());
    assert_eq!(situation.current_side(), Some(South));
    assert_eq!(situation.mark_card_used(card(Figure::Ace, Suit::Spades)), Ok(()));
    assert_eq!(situation.current_side(), Some(West));
    assert_eq!(
        situation.mark_card_used(card(Figure::Ace, Suit::Spades)),
        Err(DealError::TrickError(TrickError::DuplicateCard(card(Figure::Ace, Suit::Spades))))
    );
    let dummy = set(&[card(Figure::Two, Suit::Clubs)]);
    situation.set_dummy(dummy);
    assert_eq!(*situation.dummy_hand(), dummy);
    assert_eq!(*situation.hand(), hand);
    assert_eq!(situation.deal().completed_tricks(), 0);
    assert!(!situation.used_cards().is_card_used(&card(Figure::Ace, Suit::Spades)));
}

fn message(side: Side, m: ClientMessage) -> OverseerEvent {
    OverseerEvent::Message(side, m)
}

fn notify(n: DealNotify) -> ServerMessage {
    ServerMessage::Deal(ServerDealMessage::Notify(n))
}

#[test]
fn overseer_runs_the_opening() {
    let mut core = OverseerCore::new(new_deal());
    assert_eq!(core.phase(), OverseerPhase::Readiness);
    for side in [North, East, South] {
        let r = core.on_readiness(message(side, ClientMessage::Control(ClientControlMessage::IamReady)));
        assert!(r.deliveries.is_empty());
        assert_eq!(r.outcome, None);
    }
    let early = core.on_readiness(message(West, ClientMessage::Deal(DealAction::PlayCard(card(Figure::Two, Suit::Clubs)))));
    assert_eq!(early.deliveries, vec![Delivery {
        target: Some(West),
        message: ServerMessage::Control(ServerControlMessage::ServerNotReady),
        critical: true,
    }]);
    let r = core.on_readiness(message(West, ClientMessage::Control(ClientControlMessage::IamReady)));
    assert!(core.are_players_ready());
    assert_eq!(core.phase(), OverseerPhase::FirstCard);
    assert_eq!(r.deliveries, vec![Delivery { target: Some(South), message: notify(DealNotify::YourMove), critical: false }]);
    assert!(core.listens(South));
    assert!(!core.listens(North));

    let lead = card(Figure::Ace, Suit::Spades);
    let r = core.on_first_card(message(South, ClientMessage::Deal(DealAction::PlayCard(lead))));
    assert_eq!(core.phase(), OverseerPhase::DummyHand);
    assert_eq!(r.deliveries, vec![
        Delivery { target: Some(South), message: notify(DealNotify::CardAccepted(lead)), critical: true },
        Delivery { target: None, message: notify(DealNotify::CardPlayed(South, lead)), critical: false },
        Delivery { target: Some(West), message: notify(DealNotify::YourMove), critical: false },
    ]);

    let dummy_hand = set(&[card(Figure::Two, Suit::Spades)]);
    let r = core.on_dummy_hand(message(West, ClientMessage::DealInfo(ClientDealInformation::ShowHand(dummy_hand))));
    assert_eq!(core.phase(), OverseerPhase::Play);
    assert_eq!(core.dummy_hand(), dummy_hand);
    assert_eq!(core.next_side_dummy_corrected(), Some(East));
    assert_eq!(r.deliveries[1], Delivery { target: Some(East), message: notify(DealNotify::YourMove), critical: false });

    // the declarer plays the dummy's card
    let two = card(Figure::Two, Suit::Spades);
    let r = core.on_play(message(East, ClientMessage::Deal(DealAction::PlayCard(two))));
    assert_eq!(r.outcome, None);
    assert_eq!(r.deliveries, vec![
        Delivery { target: Some(East), message: notify(DealNotify::CardAccepted(two)), critical: false },
        Delivery { target: None, message: notify(DealNotify::CardPlayed(West, two)), critical: false },
        Delivery { target: Some(North), message: notify(DealNotify::YourMove), critical: false },
    ]);
    // a card out of turn is ignored
    let r = core.on_play(message(South, ClientMessage::Deal(DealAction::PlayCard(card(Figure::King, Suit::Spades)))));
    assert!(r.deliveries.is_empty());
    let r = core.on_play(OverseerEvent::Command(ControlCommand::Kill));
    assert_eq!(r.deliveries, vec![Delivery {
        target: None,
        message: ServerMessage::Control(ServerControlMessage::ServerStopping),
        critical: false,
    }]);
    let r = core.on_play(message(North, ClientMessage::Control(ClientControlMessage::Quit)));
    assert_eq!(core.phase(), OverseerPhase::Finished);
    assert_eq!(r.outcome, Some(Err(BridgeCoreError::Flow(FlowError::PlayerLeft(North)))));
}

#[test]
fn overseer_stops_when_a_player_leaves_early() {
    let mut core = OverseerCore::new(new_deal());
    let r = core.on_readiness(OverseerEvent::Disconnected(North));
    assert_eq!(core.phase(), OverseerPhase::Finished);
    assert!(r.deliveries.is_empty());
    assert_eq!(r.outcome, Some(Err(BridgeCoreError::Flow(FlowError::PlayerLeft(North)))));
}

fn ready_core() -> OverseerCore {
    let mut core = OverseerCore::new(new_deal());
    for side in [North, East, South, West] {
        core.on_readiness(message(side, ClientMessage::Control(ClientControlMessage::IamReady)));
    }
    core
}

#[test]
fn overseer_reports_a_lost_first_defender() {
    let mut core = ready_core();
    assert_eq!(core.phase(), OverseerPhase::FirstCard);
    let r = core.on_first_card(message(South, ClientMessage::Control(ClientControlMessage::Quit)));
    assert_eq!(core.phase(), OverseerPhase::Finished);
    assert_eq!(r.outcome, Some(Err(BridgeCoreError::Flow(FlowError::RecvError))));
    assert_eq!(r.deliveries, vec![
        Delivery { target: None, message: ServerMessage::Control(ServerControlMessage::PlayerLeft(East)), critical: false },
        Delivery { target: None, message: ServerMessage::Control(ServerControlMessage::ServerStopping), critical: false },
    ]);
}

#[test]
fn overseer_stops_without_its_operator() {
    let mut core = ready_core();
    core.on_first_card(message(South, ClientMessage::Deal(DealAction::PlayCard(card(Figure::Ace, Suit::Spades)))));
    core.on_dummy_hand(message(West, ClientMessage::DealInfo(ClientDealInformation::ShowHand(CardSet::empty()))));
    assert_eq!(core.phase(), OverseerPhase::Play);
    let r = core.on_play(OverseerEvent::CommandDisconnected);
    assert_eq!(core.phase(), OverseerPhase::Finished);
    assert_eq!(r.outcome, Some(Err(BridgeCoreError::Flow(FlowError::ServerDead))));
}

#[test]
fn overseer_answers_a_refused_card() {
    let mut core = ready_core();
    core.on_first_card(message(South, ClientMessage::Deal(DealAction::PlayCard(card(Figure::Ace, Suit::Spades)))));
    core.on_dummy_hand(message(West, ClientMessage::DealInfo(ClientDealInformation::ShowHand(CardSet::empty()))));
    let r = core.on_play(message(East, ClientMessage::Deal(DealAction::PlayCard(card(Figure::Ace, Suit::Spades)))));
    assert_eq!(r.outcome, None);
    assert_eq!(r.deliveries, vec![Delivery {
        target: Some(East),
        message: ServerMessage::Control(ServerControlMessage::ServerBridgeError(BridgeCoreError::Deal(
            DealError::TrickError(TrickError::DuplicateCard(card(Figure::Ace, Suit::Spades))),
        ))),
        critical: false,
    }]);
    assert_eq!(core.phase(), OverseerPhase::Play);
}

#[test]
fn overseer_knows_what_it_cannot_answer() {
    let mut core = ready_core();
    let not_my_turn = message(North, ClientMessage::Control(ClientControlMessage::NotMyTurn));
    assert!(core.handles(&not_my_turn));
    core.on_first_card(message(South, ClientMessage::Deal(DealAction::PlayCard(card(Figure::Ace, Suit::Spades)))));
    core.on_dummy_hand(message(West, ClientMessage::DealInfo(ClientDealInformation::ShowHand(CardSet::empty()))));
    assert!(!core.handles(&not_my_turn));
    assert!(!core.handles(&message(North, ClientMessage::DealInfo(ClientDealInformation::ShowHand(CardSet::empty())))));
    assert!(core.handles(&message(West, ClientMessage::DealInfo(ClientDealInformation::ShowHand(CardSet::empty())))));
    assert!(core.handles(&OverseerEvent::Disconnected(East)));
}

#[test]
fn players_follow_the_environment() {
    let south_hand = set(&[card(Figure::Ace, Suit::Spades)]);
    let west_hand = set(&[card(Figure::Two, Suit::Spades)]);
    let mut env = ContractEnv::new(ContractEnvStateMin::new(new_deal(), None));
    let mut north = ContractAgentInfoSetSimple::new(North, CardSet::empty(), new_deal(), None);
    let mut south = ContractAgentInfoSetSimple::new(South, south_hand, new_deal(), None);
    let moves = [
        (South, PlaceCard(card(Figure::Ace, Suit::Spades))),
        (West, ShowHand(west_hand)),
        (East, PlaceCard(card(Figure::Two, Suit::Spades))),
    ];
    for (agent, action) in moves {
        let updates = env.process_action(agent, action).unwrap();
        let (_, u) = updates[0];
        north.update(u).unwrap();
        south.update(u).unwrap();
        assert_eq!(north.contract(), env.state().contract());
        assert_eq!(south.contract(), env.state().contract());
    }
    assert_eq!(north.dummy_hand(), Some(set(&[])));
    assert!(south.hand().is_empty());
}

#[test]
fn overseer_is_not_ready_for_play_messages_before_readiness() {
    let mut core = OverseerCore::new(new_deal());
    let not_ready = |side: Side| {
        vec![Delivery {
            target: Some(side),
            message: ServerMessage::Control(ServerControlMessage::ServerNotReady),
            critical: true,
        }]
    };
    let r = core.on_readiness(message(North, ClientMessage::Control(ClientControlMessage::NotMyTurn)));
    assert_eq!(r.deliveries, not_ready(North));
    let r = core.on_readiness(message(West, ClientMessage::DealInfo(ClientDealInformation::ShowHand(CardSet::empty()))));
    assert_eq!(r.deliveries, not_ready(West));
    assert_eq!(r.outcome, None);
    assert_eq!(core.phase(), OverseerPhase::Readiness);
}
