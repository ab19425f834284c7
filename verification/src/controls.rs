//! The controls of players.

use vstd::prelude::*;

verus! {

/// The state of a player's controls.
#[derive(Clone, Copy, Debug, PartialEq, Eq, Structural)]
pub enum PlayerControl {
    /// As the controls are by default.
    ByDefault,
}

} // verus!
