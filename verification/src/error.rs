use vstd::prelude::*;
use crate::card::CardError;
use crate::play::contract::AuctionError;
use crate::play::deal::DealError;
use crate::player::side::Side;

verus! {

/// Failures of the flow of a game between the overseer and the players.
#[derive(Debug, Clone, Copy, PartialEq, Eq, Structural)]
pub enum FlowError {
    MissingConnection(Side),
    PlayerLeft(Side),
    ServerDead,
    RecvError,
    SendError,
}

/// Errors of the library.
#[derive(Debug, Clone, Copy, PartialEq, Eq, Structural)]
pub enum BridgeCoreError {
    Deal(DealError),
    Hand(CardError),
    Auction(AuctionError),
    Flow(FlowError),
}

} // verus!
