use vstd::prelude::*;
use crate::card::{Card, CardSet};
use crate::error::BridgeCoreError;
use crate::player::side::Side;

verus! {

/// Notifications about the play.
#[derive(Debug, Clone, Copy, PartialEq, Eq, Structural)]
pub enum DealNotify {
    CardPlayed(Side, Card),
    TrickClosed(Side),
    CardAccepted(Card),
    CardDeclined(Card),
    DummyPlacedHand(CardSet),
    YourMove,
    ShowYourHand,
    DealClosed,
}

/// Notifications about the auction (none defined yet).
#[derive(Debug, Clone, Copy, PartialEq, Eq, Structural)]
pub enum BiddingNotify {
    Unspecified,
}

/// Answers to requests about the play (none defined yet).
#[derive(Debug, Clone, Copy, PartialEq, Eq, Structural)]
pub enum DealInfoResponse {
    Unspecified,
}

/// Answers to requests about the auction (none defined yet).
#[derive(Debug, Clone, Copy, PartialEq, Eq, Structural)]
pub enum BiddingInfoResponse {
    Unspecified,
}

/// Control messages of the overseer.
#[derive(Debug, Clone, Copy, PartialEq, Eq, Structural)]
pub enum ServerControlMessage {
    ServerStopping,
    ServerBridgeError(BridgeCoreError),
    ServerNotReady,
    PlayerLeft(Side),
    GameOver,
    GameOverUnfinished,
}

/// A message of the overseer about the play.
#[derive(Debug, Clone, Copy, PartialEq, Eq, Structural)]
pub enum ServerDealMessage {
    Notify(DealNotify),
    Info(DealInfoResponse),
    Control(ServerControlMessage),
}

/// A message of the overseer about the auction.
#[derive(Debug, Clone, Copy, PartialEq, Eq, Structural)]
pub enum ServerBiddingMessage {
    Notify(BiddingNotify),
    Info(BiddingInfoResponse),
}

/// A message of the overseer to a player.
#[derive(Debug, Clone, Copy, PartialEq, Eq, Structural)]
pub enum ServerMessage {
    Deal(ServerDealMessage),
    Bidding(ServerBiddingMessage),
    Control(ServerControlMessage),
}

/// The message notifying `n` about the play.
pub open spec fn notify(n: DealNotify) -> ServerMessage {
    ServerMessage::Deal(ServerDealMessage::Notify(n))
}

/// The control message `c`.
pub open spec fn control(c: ServerControlMessage) -> ServerMessage {
    ServerMessage::Control(c)
}

} // verus!
