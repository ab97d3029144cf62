use vstd::prelude::*;
use crate::card::{Card, CardSet};
use crate::error::BridgeCoreError;
use crate::play::contract::Bid;

verus! {

/// A call of the auction.
#[derive(Debug, Clone, Copy, PartialEq, Eq, Structural)]
pub enum Call {
    Bid(Bid),
    Double,
    ReDouble,
    Pass,
}

/// An action of a player in the play.
#[derive(Debug, Clone, Copy, PartialEq, Eq, Structural)]
pub enum DealAction {
    PlayCard(Card),
}

/// An action of a player in the auction.
#[derive(Debug, Clone, Copy, PartialEq, Eq, Structural)]
pub enum BiddingAction {
    Call(Call),
}

/// A request for information about the play (none defined yet; one placeholder).
#[derive(Debug, Clone, Copy, PartialEq, Eq, Structural)]
pub enum DealInfoRequest {
    Unspecified,
}

/// A request for information about the auction (none defined yet; one placeholder).
#[derive(Debug, Clone, Copy, PartialEq, Eq, Structural)]
pub enum BiddingInfoRequest {
    Unspecified,
}

/// Information a player gives about the play: the dummy shows its hand.
#[derive(Debug, Clone, Copy, PartialEq, Eq, Structural)]
pub enum ClientDealInformation {
    ShowHand(CardSet),
}

/// Control messages of a player.
#[derive(Debug, Clone, Copy, PartialEq, Eq, Structural)]
pub enum ClientControlMessage {
    IamReady,
    Quit,
    ClientBridgeError(BridgeCoreError),
    NotMyTurn,
}

/// A message of a player about the play.
#[derive(Debug, Clone, Copy, PartialEq, Eq, Structural)]
pub enum ClientDealMessage {
    Action(DealAction),
    Info(ClientDealInformation),
    InfoRequest(DealInfoRequest),
    Control(ClientControlMessage),
}

/// A message of a player to the overseer.
#[derive(Debug, Clone, Copy, PartialEq, Eq, Structural)]
pub enum ClientMessage {
    Deal(DealAction),
    DealInfo(ClientDealInformation),
    Bidding(BiddingAction),
    Control(ClientControlMessage),
}

} // verus!
