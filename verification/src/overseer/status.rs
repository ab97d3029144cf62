use vstd::prelude::*;

verus! {

/// Readiness of a player.
#[derive(Debug, Clone, Copy, PartialEq, Eq, Structural)]
pub enum PlayerStatus {
    Ready,
    NotReady,
    Quit,
}

impl Default for PlayerStatus {
    fn default() -> (s: PlayerStatus)
        ensures
            s == PlayerStatus::NotReady,
    {
        PlayerStatus::NotReady
    }
}

} // verus!
