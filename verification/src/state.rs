//! The overall session state: either in the menu or in active combat.

use vstd::prelude::*;

verus! {

/// Which screen the game session is on.  Combat systems run only in `Game`;
/// finishing the last wave (or losing the player) transitions back to `Menu`.
#[derive(Clone, Copy, PartialEq, Eq, Structural, Debug)]
pub enum GameState {
    Menu,
    Game,
}

} // verus!
