use vstd::prelude::*;

verus! {

/// Whether the player survived the most recent state query: `Dead` is
/// reported exactly when the collision test succeeded on that query.
#[derive(Clone, Copy, Debug, PartialEq, Eq, Structural)]
pub enum PlayerState {
    Live,
    Dead,
}

} // verus!
