use vstd::prelude::*;
use crate::card::Card;
use crate::player::axis::Axis;
use crate::player::side::Side;
use crate::protocol::client::Call;

verus! {

/// An action of a player: a call in the auction or a card in the play.
#[derive(Debug, Clone, Copy, PartialEq, Eq, Structural)]
pub enum Action {
    MakeCall(Call),
    PlayCard(Card),
}

/// A resource served by the interface.
#[derive(Debug, Clone, PartialEq, Eq)]
pub enum ApiResource {
    Side(Side),
    Axis(Axis),
    Card(Card),
    CardVec(Vec<Card>),
}

} // verus!
