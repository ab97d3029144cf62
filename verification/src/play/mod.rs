pub mod card_trackers;
pub mod contract;
pub mod deal;
pub mod deck;
pub mod exhaust;
pub mod trick;
pub mod trump;
