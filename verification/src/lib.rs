pub mod bits;
pub mod card;
pub mod error;
pub mod overseer;
pub mod play;
pub mod player;
pub mod protocol;
pub mod score;
pub mod state;
