use vstd::prelude::*;
use crate::card::{Card, CardSet};
use crate::error::{BridgeCoreError, FlowError};
use crate::overseer::status::PlayerStatus;
use crate::play::deal::Deal;
use crate::player::side::Side;
use crate::player::side_map::SideMap;
use crate::protocol::client::{ClientControlMessage, ClientDealInformation, ClientMessage, DealAction};
use crate::protocol::server::{control, notify, DealNotify, ServerControlMessage, ServerDealMessage, ServerMessage};

verus! {

/// Commands of the operator to the overseer.
#[derive(Debug, Clone, Copy, PartialEq, Eq, Structural)]
pub enum ControlCommand {
    Start,
    Pause,
    Kill,
}

/// The stages of overseeing a deal.
#[derive(Debug, Clone, Copy, PartialEq, Eq, Structural)]
pub enum OverseerPhase {
    /// Waiting until every player declares to be ready.
    Readiness,
    /// Waiting for the opening lead of the first defender.
    FirstCard,
    /// Waiting for the dummy to show its hand.
    DummyHand,
    /// Overseeing the rest of the play.
    Play,
    /// The deal is over, or overseeing stopped.
    Finished,
}

/// What happened: a message of a player, a broken connection, or an operator command.
#[derive(Debug, Clone, Copy, PartialEq, Eq, Structural)]
pub enum OverseerEvent {
    Message(Side, ClientMessage),
    Disconnected(Side),
    Command(ControlCommand),
    CommandDisconnected,
}

/// A message to send: to one side, or to every side (`target` none). A failure to send a
/// critical message ends the overseeing with an error.
#[derive(Debug, Clone, Copy, PartialEq, Eq, Structural)]
pub struct Delivery {
    pub target: Option<Side>,
    pub message: ServerMessage,
    pub critical: bool,
}

/// The answer to an event: the messages to send, in order, and, when overseeing ends,
/// its result.
#[derive(Debug, Clone, PartialEq, Eq)]
pub struct Reaction {
    pub deliveries: Vec<Delivery>,
    pub outcome: Option<Result<(), BridgeCoreError>>,
}

pub open spec fn to_side(side: Side, m: ServerMessage, critical: bool) -> Delivery {
    Delivery { target: Some(side), message: m, critical }
}

pub open spec fn to_all(m: ServerMessage) -> Delivery {
    Delivery { target: None, message: m, critical: false }
}

fn deliver_to(side: Side, m: ServerMessage, critical: bool) -> (d: Delivery)
    ensures
        d == to_side(side, m, critical),
{
    Delivery { target: Some(side), message: m, critical }
}

fn deliver_all(m: ServerMessage) -> (d: Delivery)
    ensures
        d == to_all(m),
{
    Delivery { target: None, message: m, critical: false }
}

fn notify_exec(n: DealNotify) -> (m: ServerMessage)
    ensures
        m == notify(n),
{
    ServerMessage::Deal(ServerDealMessage::Notify(n))
}

fn control_exec(c: ServerControlMessage) -> (m: ServerMessage)
    ensures
        m == control(c),
{
    ServerMessage::Control(c)
}

/// The decisions of the simple overseer of one deal; the connections are kept by the
/// caller, which feeds the events in and sends the messages out.
#[derive(Debug, Clone, PartialEq, Eq)]
pub struct OverseerCore {
    deal: Deal,
    player_status: SideMap<PlayerStatus>,
    dummy_hand: CardSet,
    phase: OverseerPhase,
}

impl OverseerCore {
    pub closed spec fn spec_deal(self) -> Deal {
        self.deal
    }

    pub closed spec fn status(self) -> SideMap<PlayerStatus> {
        self.player_status
    }

    pub closed spec fn spec_dummy_hand(self) -> CardSet {
        self.dummy_hand
    }

    pub closed spec fn spec_phase(self) -> OverseerPhase {
        self.phase
    }

    pub open spec fn wf(self) -> bool {
        self.spec_deal().wf()
    }

    pub open spec fn declarer(self) -> Side {
        self.spec_deal().spec_contract().spec_owner()
    }

    pub open spec fn dummy(self) -> Side {
        self.declarer().spec_partner()
    }

    /// The first defender, who leads the first trick.
    pub open spec fn whist(self) -> Side {
        self.declarer().spec_next()
    }

    pub open spec fn all_ready(s: SideMap<PlayerStatus>) -> bool {
        &&& s.north == PlayerStatus::Ready
        &&& s.east == PlayerStatus::Ready
        &&& s.south == PlayerStatus::Ready
        &&& s.west == PlayerStatus::Ready
    }

    /// The side asked to play next in deal `d`: the side due, except that the declarer
    /// plays for the dummy.
    pub open spec fn corrected(d: Deal) -> Option<Side> {
        match d.spec_current_side() {
            None => None,
            Some(s) => if s == d.spec_contract().spec_owner().spec_partner() {
                Some(s.spec_partner())
            } else {
                Some(s)
            },
        }
    }

    /// The sides whose messages the overseer reads in the current phase.
    pub open spec fn listens_to(self, side: Side) -> bool {
        match self.spec_phase() {
            OverseerPhase::Readiness | OverseerPhase::Play => true,
            OverseerPhase::FirstCard => side == self.whist(),
            OverseerPhase::DummyHand => side == self.dummy(),
            OverseerPhase::Finished => false,
        }
    }

    /// Events that the overseer has no answer for during the play: a player saying it is not
    /// its turn, reporting an error, or a hand shown by a side other than the dummy.
    pub open spec fn unhandled(self, event: OverseerEvent) -> bool {
        self.spec_phase() == OverseerPhase::Play && match event {
            OverseerEvent::Message(side, m) => match m {
                ClientMessage::Control(ClientControlMessage::NotMyTurn) => true,
                ClientMessage::Control(ClientControlMessage::ClientBridgeError(_)) => true,
                ClientMessage::DealInfo(_) => side != self.dummy(),
                _ => false,
            },
            _ => false,
        }
    }

    /// Whether the overseer has an answer for `event` in its current phase.
    pub fn handles(&self, event: &OverseerEvent) -> (r: bool)
        ensures
            r == !self.unhandled(*event),
    {
        match self.phase {
            OverseerPhase::Play => match event {
                OverseerEvent::Message(side, m) => match m {
                    ClientMessage::Control(ClientControlMessage::NotMyTurn) => false,
                    ClientMessage::Control(ClientControlMessage::ClientBridgeError(_)) => false,
                    ClientMessage::DealInfo(_) => *side == self.deal.dummy(),
                    _ => true,
                },
                _ => true,
            },
            _ => true,
        }
    }

    /// An overseer of `deal`, waiting for the players to be ready.
    pub fn new(deal: Deal) -> (o: OverseerCore)
        requires
            deal.wf(),
        ensures
            o.wf(),
            o.spec_deal() == deal,
            o.spec_phase() == OverseerPhase::Readiness,
            o.status() == SideMap::uniform(PlayerStatus::NotReady),
            forall|c: Card| !o.spec_dummy_hand().has(c),
    {
        OverseerCore {
            deal,
            player_status: SideMap::new_symmetric(PlayerStatus::NotReady),
            dummy_hand: CardSet::empty(),
            phase: OverseerPhase::Readiness,
        }
    }

    pub fn deal(&self) -> (d: &Deal)
        ensures
            *d == self.spec_deal(),
    {
        &self.deal
    }

    pub fn phase(&self) -> (p: OverseerPhase)
        ensures
            p == self.spec_phase(),
    {
        self.phase
    }

    pub fn dummy_hand(&self) -> (h: CardSet)
        ensures
            h == self.spec_dummy_hand(),
    {
        self.dummy_hand
    }

    /// Whether every player declared to be ready.
    pub fn are_players_ready(&self) -> (r: bool)
        ensures
            r == OverseerCore::all_ready(self.status()),
    {
        self.player_status.north == PlayerStatus::Ready && self.player_status.east
            == PlayerStatus::Ready && self.player_status.south == PlayerStatus::Ready
            && self.player_status.west == PlayerStatus::Ready
    }

    /// Whether the overseer reads messages of `side` in the current phase.
    pub fn listens(&self, side: Side) -> (r: bool)
        ensures
            r == self.listens_to(side),
    {
        match self.phase {
            OverseerPhase::Readiness | OverseerPhase::Play => true,
            OverseerPhase::FirstCard => side == self.deal.declarer().next(),
            OverseerPhase::DummyHand => side == self.deal.dummy(),
            OverseerPhase::Finished => false,
        }
    }

    /// The side asked to play next: the side due, the declarer for the dummy.
    pub fn next_side_dummy_corrected(&self) -> (r: Option<Side>)
        requires
            self.wf(),
        ensures
            r == OverseerCore::corrected(self.spec_deal()),
    {
        match self.deal.current_side() {
            None => None,
            Some(s) => if s == self.deal.dummy() {
                Some(s.partner())
            } else {
                Some(s)
            },
        }
    }

    fn stop(&mut self, deliveries: Vec<Delivery>, result: Result<(), BridgeCoreError>) -> (r:
        Reaction)
        ensures
            final(self).spec_phase() == OverseerPhase::Finished,
            final(self).spec_deal() == old(self).spec_deal(),
            final(self).status() == old(self).status(),
            final(self).spec_dummy_hand() == old(self).spec_dummy_hand(),
            r.deliveries@ == deliveries@,
            r.outcome == Some(result),
    {
        self.phase = OverseerPhase::Finished;
        Reaction { deliveries, outcome: Some(result) }
    }

    /// Reacts to an event of the readiness phase: a ready player is marked ready and, once
    /// all four are, the first defender is asked to lead; a player that quits or
    /// disconnects ends the overseeing; a play message now (a card, a shown hand, or a
    /// complaint about the turn) is answered that the server is not ready.
    pub fn on_readiness(&mut self, event: OverseerEvent) -> (r: Reaction)
        requires
            old(self).wf(),
            old(self).spec_phase() == OverseerPhase::Readiness,
        ensures
            final(self).wf(),
            final(self).spec_deal() == old(self).spec_deal(),
            final(self).spec_dummy_hand() == old(self).spec_dummy_hand(),
            match event {
                OverseerEvent::Message(side, ClientMessage::Control(ClientControlMessage::IamReady)) => {
                    let st = old(self).status().with(side, PlayerStatus::Ready);
                    &&& final(self).status() == st
                    &&& r.outcome is None
                    &&& if OverseerCore::all_ready(st) {
                        final(self).spec_phase() == OverseerPhase::FirstCard && r.deliveries@
                            == seq![to_side(old(self).whist(), notify(DealNotify::YourMove), false)]
                    } else {
                        final(self).spec_phase() == OverseerPhase::Readiness && r.deliveries@.len()
                            == 0
                    }
                },
                OverseerEvent::Message(side, ClientMessage::Control(ClientControlMessage::Quit))
                | OverseerEvent::Disconnected(side) => {
                    &&& final(self).spec_phase() == OverseerPhase::Finished
                    &&& r.deliveries@.len() == 0
                    &&& r.outcome == Some(
                        Err::<(), BridgeCoreError>(BridgeCoreError::Flow(FlowError::PlayerLeft(side))),
                    )
                },
                OverseerEvent::Message(side, ClientMessage::Deal(_))
                | OverseerEvent::Message(side, ClientMessage::DealInfo(_))
                | OverseerEvent::Message(
                    side,
                    ClientMessage::Control(ClientControlMessage::NotMyTurn),
                ) => {
                    &&& *final(self) == *old(self)
                    &&& r.outcome is None
                    &&& r.deliveries@ == seq![
                        to_side(side, control(ServerControlMessage::ServerNotReady), true),
                    ]
                },
                _ => *final(self) == *old(self) && r.outcome is None && r.deliveries@.len() == 0,
            },
    {
        match event {
            OverseerEvent::Message(side, ClientMessage::Control(ClientControlMessage::IamReady)) => {
                self.player_status.set(&side, PlayerStatus::Ready);
                let mut deliveries: Vec<Delivery> = Vec::new();
                if self.are_players_ready() {
                    self.phase = OverseerPhase::FirstCard;
                    deliveries.push(
                        deliver_to(self.deal.declarer().next(), notify_exec(DealNotify::YourMove), false),
                    );
                }
                Reaction { deliveries, outcome: None }
            },
            OverseerEvent::Message(side, ClientMessage::Control(ClientControlMessage::Quit)) => {
                self.stop(
                    Vec::new(),
                    Err(BridgeCoreError::Flow(FlowError::PlayerLeft(side))),
                )
            },
            OverseerEvent::Disconnected(side) => {
                self.stop(
                    Vec::new(),
                    Err(BridgeCoreError::Flow(FlowError::PlayerLeft(side))),
                )
            },
            OverseerEvent::Message(side, ClientMessage::Deal(_))
            | OverseerEvent::Message(side, ClientMessage::DealInfo(_))
            | OverseerEvent::Message(side, ClientMessage::Control(ClientControlMessage::NotMyTurn)) => {
                let mut deliveries: Vec<Delivery> = Vec::new();
                deliveries.push(
                    deliver_to(side, control_exec(ServerControlMessage::ServerNotReady), true),
                );
                Reaction { deliveries, outcome: None }
            },
            _ => Reaction { deliveries: Vec::new(), outcome: None },
        }
    }

    /// The messages that end the game when the first defender or the dummy leaves before
    /// the play: the declarer is reported gone and the server stopping.
    pub open spec fn leaving_notice(self) -> Seq<Delivery> {
        seq![
            to_all(control(ServerControlMessage::PlayerLeft(self.declarer()))),
            to_all(control(ServerControlMessage::ServerStopping)),
        ]
    }

    fn leaving_notice_exec(&self) -> (v: Vec<Delivery>)
        ensures
            v@ == self.leaving_notice(),
    {
        let mut v: Vec<Delivery> = Vec::new();
        v.push(deliver_all(control_exec(ServerControlMessage::PlayerLeft(self.deal.declarer()))));
        v.push(deliver_all(control_exec(ServerControlMessage::ServerStopping)));
        v
    }

    /// Reacts to a message of the first defender (or its broken connection) while waiting
    /// for the opening lead: an accepted card is confirmed to the defender and announced to
    /// all, then the dummy is asked to show its hand; a refused card, a complaint about the
    /// turn and other messages are passed over; quitting or disconnecting ends the game.
    pub fn on_first_card(&mut self, event: OverseerEvent) -> (r: Reaction)
        requires
            old(self).wf(),
            old(self).spec_phase() == OverseerPhase::FirstCard,
        ensures
            final(self).wf(),
            final(self).status() == old(self).status(),
            final(self).spec_dummy_hand() == old(self).spec_dummy_hand(),
            match event {
                OverseerEvent::Message(side, ClientMessage::Deal(DealAction::PlayCard(card))) => {
                    let whist = old(self).whist();
                    let out = old(self).spec_deal().insert_outcome(whist, card);
                    &&& Deal::inserted(old(self).spec_deal(), final(self).spec_deal(), whist, card)
                    &&& r.outcome is None
                    &&& out is Ok ==> final(self).spec_phase() == OverseerPhase::DummyHand
                        && r.deliveries@ == seq![
                        to_side(whist, notify(DealNotify::CardAccepted(card)), true),
                        to_all(notify(DealNotify::CardPlayed(whist, card))),
                        to_side(old(self).dummy(), notify(DealNotify::YourMove), false),
                    ]
                    &&& out is Err ==> final(self).spec_phase() == OverseerPhase::FirstCard
                        && r.deliveries@.len() == 0
                },
                OverseerEvent::Message(_, ClientMessage::Control(ClientControlMessage::Quit))
                | OverseerEvent::Disconnected(_) => {
                    &&& final(self).spec_deal() == old(self).spec_deal()
                    &&& final(self).spec_phase() == OverseerPhase::Finished
                    &&& r.deliveries@ == old(self).leaving_notice()
                    &&& r.outcome == Some(
                        Err::<(), BridgeCoreError>(BridgeCoreError::Flow(FlowError::RecvError)),
                    )
                },
                _ => *final(self) == *old(self) && r.outcome is None && r.deliveries@.len() == 0,
            },
    {
        match event {
            OverseerEvent::Message(_, ClientMessage::Deal(DealAction::PlayCard(card))) => {
                let whist = self.deal.declarer().next();
                match self.deal.insert_card(whist, card) {
                    Ok(_) => {
                        let mut deliveries: Vec<Delivery> = Vec::new();
                        deliveries.push(deliver_to(whist, notify_exec(DealNotify::CardAccepted(card)), true));
                        deliveries.push(deliver_all(notify_exec(DealNotify::CardPlayed(whist, card))));
                        deliveries.push(deliver_to(self.deal.dummy(), notify_exec(DealNotify::YourMove), false));
                        self.phase = OverseerPhase::DummyHand;
                        Reaction { deliveries, outcome: None }
                    },
                    Err(_) => Reaction { deliveries: Vec::new(), outcome: None },
                }
            },
            OverseerEvent::Message(_, ClientMessage::Control(ClientControlMessage::Quit)) => {
                let v = self.leaving_notice_exec();
                self.stop(v, Err(BridgeCoreError::Flow(FlowError::RecvError)))
            },
            OverseerEvent::Disconnected(_) => {
                let v = self.leaving_notice_exec();
                self.stop(v, Err(BridgeCoreError::Flow(FlowError::RecvError)))
            },
            _ => Reaction { deliveries: Vec::new(), outcome: None },
        }
    }

    /// Reacts to a message of the dummy (or its broken connection) while waiting for its
    /// hand: the shown hand is kept and announced to all, then the side due is asked to
    /// play; a card or other messages are passed over; quitting or disconnecting ends the
    /// game.
    pub fn on_dummy_hand(&mut self, event: OverseerEvent) -> (r: Reaction)
        requires
            old(self).wf(),
            old(self).spec_phase() == OverseerPhase::DummyHand,
            old(self).spec_deal().completed().len() < 13,
        ensures
            final(self).wf(),
            final(self).status() == old(self).status(),
            final(self).spec_deal() == old(self).spec_deal(),
            match event {
                OverseerEvent::Message(_, ClientMessage::DealInfo(ClientDealInformation::ShowHand(hand))) => {
                    &&& final(self).spec_dummy_hand() == hand
                    &&& final(self).spec_phase() == OverseerPhase::Play
                    &&& r.outcome is None
                    &&& r.deliveries@ == seq![
                        to_all(notify(DealNotify::DummyPlacedHand(hand))),
                        to_side(
                            OverseerCore::corrected(old(self).spec_deal()).unwrap(),
                            notify(DealNotify::YourMove),
                            false,
                        ),
                    ]
                },
                OverseerEvent::Message(_, ClientMessage::Control(ClientControlMessage::Quit))
                | OverseerEvent::Disconnected(_) => {
                    &&& final(self).spec_dummy_hand() == old(self).spec_dummy_hand()
                    &&& final(self).spec_phase() == OverseerPhase::Finished
                    &&& r.deliveries@ == old(self).leaving_notice()
                    &&& r.outcome == Some(
                        Err::<(), BridgeCoreError>(BridgeCoreError::Flow(FlowError::RecvError)),
                    )
                },
                _ => *final(self) == *old(self) && r.outcome is None && r.deliveries@.len() == 0,
            },
    {
        match event {
            OverseerEvent::Message(_, ClientMessage::DealInfo(ClientDealInformation::ShowHand(hand))) => {
                self.dummy_hand = hand;
                self.phase = OverseerPhase::Play;
                let mut deliveries: Vec<Delivery> = Vec::new();
                deliveries.push(deliver_all(notify_exec(DealNotify::DummyPlacedHand(hand))));
                let next = self.next_side_dummy_corrected().unwrap();
                deliveries.push(deliver_to(next, notify_exec(DealNotify::YourMove), false));
                Reaction { deliveries, outcome: None }
            },
            OverseerEvent::Message(_, ClientMessage::Control(ClientControlMessage::Quit)) => {
                let v = self.leaving_notice_exec();
                self.stop(v, Err(BridgeCoreError::Flow(FlowError::RecvError)))
            },
            OverseerEvent::Disconnected(_) => {
                let v = self.leaving_notice_exec();
                self.stop(v, Err(BridgeCoreError::Flow(FlowError::RecvError)))
            },
            _ => Reaction { deliveries: Vec::new(), outcome: None },
        }
    }
}

impl OverseerCore {
    /// Whether no side has played to trick `t`.
    pub open spec fn no_cards(t: crate::play::trick::Trick) -> bool {
        &&& t.slot(Side::North) is None
        &&& t.slot(Side::East) is None
        &&& t.slot(Side::South) is None
        &&& t.slot(Side::West) is None
    }

    /// Whether `side` may send a card for `due`: its own turn, or the declarer's turn for
    /// the dummy.
    pub open spec fn may_play_for(self, side: Side, due: Side) -> bool {
        due == side || (self.declarer() == side && due == side.spec_partner())
    }

    /// The messages after a card of `side` was accepted for `due` in deal `post`, which
    /// returned `next`: confirmation and announcement, the closing of a completed trick,
    /// then either the end of the deal or the call of the next side to play.
    pub open spec fn card_notices(side: Side, due: Side, card: Card, next: Side, post: Deal) -> Seq<Delivery> {
        seq![
            to_side(side, notify(DealNotify::CardAccepted(card)), false),
            to_all(notify(DealNotify::CardPlayed(due, card))),
        ] + (if OverseerCore::no_cards(post.current()) {
            seq![to_all(notify(DealNotify::TrickClosed(next)))]
        } else {
            Seq::<Delivery>::empty()
        }) + (if post.completed().len() == 13 {
            seq![
                to_all(notify(DealNotify::DealClosed)),
                to_all(control(ServerControlMessage::GameOver)),
            ]
        } else {
            seq![to_side(OverseerCore::corrected(post).unwrap(), notify(DealNotify::YourMove), false)]
        })
    }

    /// What a card `card` sent by `side` during the play does, from overseer `pre` to
    /// overseer `post` with reaction `r`.
    pub open spec fn card_played(pre: OverseerCore, post: OverseerCore, side: Side, card: Card, r: Reaction) -> bool {
        let due = pre.spec_deal().current().side_in_order();
        if pre.may_play_for(side, due) {
            let out = pre.spec_deal().insert_outcome(due, card);
            &&& Deal::inserted(pre.spec_deal(), post.spec_deal(), due, card)
            &&& post.status() == pre.status()
            &&& post.spec_dummy_hand() == pre.spec_dummy_hand()
            &&& match out {
                Ok(next) => {
                    &&& r.deliveries@ == OverseerCore::card_notices(side, due, card, next, post.spec_deal())
                    &&& if post.spec_deal().completed().len() == 13 {
                        post.spec_phase() == OverseerPhase::Finished && r.outcome == Some(
                            Ok::<(), BridgeCoreError>(()),
                        )
                    } else {
                        post.spec_phase() == OverseerPhase::Play && r.outcome is None
                    }
                },
                Err(e) => {
                    &&& post.spec_phase() == OverseerPhase::Play
                    &&& r.outcome is None
                    &&& r.deliveries@ == seq![
                        to_side(
                            side,
                            control(ServerControlMessage::ServerBridgeError(BridgeCoreError::Deal(e))),
                            false,
                        ),
                    ]
                },
            }
        } else {
            post == pre && r.outcome is None && r.deliveries@.len() == 0
        }
    }

    fn play_card(&mut self, side: Side, card: Card) -> (r: Reaction)
        requires
            old(self).wf(),
            old(self).spec_phase() == OverseerPhase::Play,
            old(self).spec_deal().completed().len() < 13,
        ensures
            final(self).wf(),
            OverseerCore::card_played(*old(self), *final(self), side, card, r),
    {
        let due = self.deal.current_turn();
        if due == side || (self.deal.declarer() == side && due == side.partner()) {
            match self.deal.insert_card(due, card) {
                Ok(next_side) => {
                    let ghost post = self.deal;
                    let ghost head = seq![
                        to_side(side, notify(DealNotify::CardAccepted(card)), false),
                        to_all(notify(DealNotify::CardPlayed(due, card))),
                    ];
                    let ghost closing = if OverseerCore::no_cards(post.current()) {
                        seq![to_all(notify(DealNotify::TrickClosed(next_side)))]
                    } else {
                        Seq::<Delivery>::empty()
                    };
                    let mut deliveries: Vec<Delivery> = Vec::new();
                    deliveries.push(deliver_to(side, notify_exec(DealNotify::CardAccepted(card)), false));
                    deliveries.push(deliver_all(notify_exec(DealNotify::CardPlayed(due, card))));
                    if self.deal.current_trick().is_empty() {
                        deliveries.push(deliver_all(notify_exec(DealNotify::TrickClosed(next_side))));
                    }
                    assert(deliveries@ =~= head + closing);
                    if self.deal.is_completed() {
                        deliveries.push(deliver_all(notify_exec(DealNotify::DealClosed)));
                        deliveries.push(deliver_all(control_exec(ServerControlMessage::GameOver)));
                        assert(deliveries@ =~= OverseerCore::card_notices(side, due, card, next_side, post));
                        return self.stop(deliveries, Ok(()));
                    }
                    let next = self.next_side_dummy_corrected().unwrap();
                    deliveries.push(deliver_to(next, notify_exec(DealNotify::YourMove), false));
                    assert(deliveries@ =~= OverseerCore::card_notices(side, due, card, next_side, post));
                    Reaction { deliveries, outcome: None }
                },
                Err(e) => {
                    let mut deliveries: Vec<Delivery> = Vec::new();
                    deliveries.push(
                        deliver_to(
                            side,
                            control_exec(ServerControlMessage::ServerBridgeError(BridgeCoreError::Deal(e))),
                            false,
                        ),
                    );
                    Reaction { deliveries, outcome: None }
                },
            }
        } else {
            Reaction { deliveries: Vec::new(), outcome: None }
        }
    }

    /// Reacts to an event of the play: a card sent by the side due (or by the declarer for
    /// the dummy) is inserted and announced, a refused one answered with the error; a hand
    /// shown by the dummy before it was known is kept and announced; a ready player is
    /// marked; a kill command announces the stop; a player that quits or disconnects, or a
    /// broken command channel, ends the overseeing, and so does the last trick.
    pub fn on_play(&mut self, event: OverseerEvent) -> (r: Reaction)
        requires
            old(self).wf(),
            old(self).spec_phase() == OverseerPhase::Play,
            !old(self).unhandled(event),
        ensures
            final(self).wf(),
            old(self).spec_deal().completed().len() == 13 ==> final(self).spec_phase()
                == OverseerPhase::Finished && r.deliveries@.len() == 0 && r.outcome == Some(
                Ok::<(), BridgeCoreError>(()),
            ) && final(self).spec_deal() == old(self).spec_deal(),
            old(self).spec_deal().completed().len() < 13 ==> match event {
                OverseerEvent::Command(ControlCommand::Kill) => *final(self) == *old(self)
                    && r.outcome is None && r.deliveries@ == seq![
                    to_all(control(ServerControlMessage::ServerStopping)),
                ],
                OverseerEvent::Command(_) => *final(self) == *old(self) && r.outcome is None
                    && r.deliveries@.len() == 0,
                OverseerEvent::CommandDisconnected => {
                    &&& final(self).spec_deal() == old(self).spec_deal()
                    &&& final(self).spec_phase() == OverseerPhase::Finished
                    &&& r.deliveries@ == seq![to_all(control(ServerControlMessage::ServerStopping))]
                    &&& r.outcome == Some(
                        Err::<(), BridgeCoreError>(BridgeCoreError::Flow(FlowError::ServerDead)),
                    )
                },
                OverseerEvent::Disconnected(side) => {
                    &&& final(self).spec_deal() == old(self).spec_deal()
                    &&& final(self).spec_phase() == OverseerPhase::Finished
                    &&& r.deliveries@ == seq![to_all(control(ServerControlMessage::ServerStopping))]
                    &&& r.outcome == Some(
                        Err::<(), BridgeCoreError>(BridgeCoreError::Flow(FlowError::PlayerLeft(side))),
                    )
                },
                OverseerEvent::Message(side, m) => match m {
                    ClientMessage::Deal(DealAction::PlayCard(card)) => OverseerCore::card_played(
                        *old(self),
                        *final(self),
                        side,
                        card,
                        r,
                    ),
                    ClientMessage::DealInfo(ClientDealInformation::ShowHand(hand)) => {
                        &&& final(self).spec_deal() == old(self).spec_deal()
                        &&& final(self).status() == old(self).status()
                        &&& final(self).spec_phase() == OverseerPhase::Play
                        &&& r.outcome is None
                        &&& if old(self).spec_dummy_hand().cards == 0 {
                            final(self).spec_dummy_hand() == hand && r.deliveries@ == seq![
                                to_all(notify(DealNotify::DummyPlacedHand(hand))),
                                to_side(
                                    OverseerCore::corrected(old(self).spec_deal()).unwrap(),
                                    notify(DealNotify::YourMove),
                                    false,
                                ),
                            ]
                        } else {
                            final(self).spec_dummy_hand() == old(self).spec_dummy_hand()
                                && r.deliveries@.len() == 0
                        }
                    },
                    ClientMessage::Control(ClientControlMessage::IamReady) => {
                        &&& final(self).status() == old(self).status().with(side, PlayerStatus::Ready)
                        &&& final(self).spec_deal() == old(self).spec_deal()
                        &&& final(self).spec_dummy_hand() == old(self).spec_dummy_hand()
                        &&& final(self).spec_phase() == OverseerPhase::Play
                        &&& r.outcome is None
                        &&& r.deliveries@.len() == 0
                    },
                    ClientMessage::Control(ClientControlMessage::Quit) => {
                        &&& final(self).spec_deal() == old(self).spec_deal()
                        &&& final(self).spec_phase() == OverseerPhase::Finished
                        &&& r.deliveries@ == seq![
                            to_all(control(ServerControlMessage::PlayerLeft(side))),
                            to_all(control(ServerControlMessage::ServerStopping)),
                        ]
                        &&& r.outcome == Some(
                            Err::<(), BridgeCoreError>(BridgeCoreError::Flow(FlowError::PlayerLeft(side))),
                        )
                    },
                    _ => *final(self) == *old(self) && r.outcome is None && r.deliveries@.len() == 0,
                },
            },
    {
        if self.deal.is_completed() {
            return self.stop(Vec::new(), Ok(()));
        }
        match event {
            OverseerEvent::Command(ControlCommand::Kill) => {
                let mut deliveries: Vec<Delivery> = Vec::new();
                deliveries.push(deliver_all(control_exec(ServerControlMessage::ServerStopping)));
                Reaction { deliveries, outcome: None }
            },
            OverseerEvent::Command(_) => Reaction { deliveries: Vec::new(), outcome: None },
            OverseerEvent::CommandDisconnected => {
                let mut deliveries: Vec<Delivery> = Vec::new();
                deliveries.push(deliver_all(control_exec(ServerControlMessage::ServerStopping)));
                self.stop(deliveries, Err(BridgeCoreError::Flow(FlowError::ServerDead)))
            },
            OverseerEvent::Disconnected(side) => {
                let mut deliveries: Vec<Delivery> = Vec::new();
                deliveries.push(deliver_all(control_exec(ServerControlMessage::ServerStopping)));
                self.stop(deliveries, Err(BridgeCoreError::Flow(FlowError::PlayerLeft(side))))
            },
            OverseerEvent::Message(side, ClientMessage::Deal(DealAction::PlayCard(card))) => {
                self.play_card(side, card)
            },
            OverseerEvent::Message(_, ClientMessage::DealInfo(ClientDealInformation::ShowHand(hand))) => {
                let mut deliveries: Vec<Delivery> = Vec::new();
                if self.dummy_hand.is_empty() {
                    self.dummy_hand = hand;
                    deliveries.push(deliver_all(notify_exec(DealNotify::DummyPlacedHand(hand))));
                    let next = self.next_side_dummy_corrected().unwrap();
                    deliveries.push(deliver_to(next, notify_exec(DealNotify::YourMove), false));
                }
                Reaction { deliveries, outcome: None }
            },
            OverseerEvent::Message(side, ClientMessage::Control(ClientControlMessage::IamReady)) => {
                self.player_status.set(&side, PlayerStatus::Ready);
                Reaction { deliveries: Vec::new(), outcome: None }
            },
            OverseerEvent::Message(side, ClientMessage::Control(ClientControlMessage::Quit)) => {
                let mut deliveries: Vec<Delivery> = Vec::new();
                deliveries.push(deliver_all(control_exec(ServerControlMessage::PlayerLeft(side))));
                deliveries.push(deliver_all(control_exec(ServerControlMessage::ServerStopping)));
                self.stop(deliveries, Err(BridgeCoreError::Flow(FlowError::PlayerLeft(side))))
            },
            _ => Reaction { deliveries: Vec::new(), outcome: None },
        }
    }
}

/// During the play the overseer takes a card from the side due, whoever that side is, and
/// from the declarer when the dummy is due, and from no one else; a card it takes is
/// inserted for the side due, and an accepted one is confirmed to its sender and announced
/// to all as played by the side due. A card from any other side changes nothing and is
/// not answered.
pub proof fn law_card_taken_from_the_side_due(
    pre: OverseerCore,
    post: OverseerCore,
    side: Side,
    card: Card,
    r: Reaction,
)
    requires
        OverseerCore::card_played(pre, post, side, card, r),
    ensures
        ({
            let due = pre.spec_deal().current().side_in_order();
            let declarer = pre.spec_deal().spec_contract().spec_owner();
            let taken = side == due || (side == declarer && due == declarer.spec_partner());
            &&& taken ==> Deal::inserted(pre.spec_deal(), post.spec_deal(), due, card)
            &&& taken && pre.spec_deal().insert_outcome(due, card) is Ok ==> r.deliveries@.len() >= 2
                && r.deliveries@[0] == to_side(side, notify(DealNotify::CardAccepted(card)), false)
                && r.deliveries@[1] == to_all(notify(DealNotify::CardPlayed(due, card)))
            &&& !taken ==> post == pre && r.deliveries@.len() == 0 && r.outcome is None
        }),
{
    crate::player::side::law_partner(side);
    crate::player::side::law_partner(pre.spec_deal().spec_contract().spec_owner());
}

} // verus!
