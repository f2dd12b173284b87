//! Top-level world states of the game.

use vstd::prelude::*;

verus! {

/// Whether a game world is currently running. The application starts
/// outside any world and enters the running world once the scene is
/// built.
#[derive(Clone, Copy, Debug, PartialEq, Eq, Structural, Hash, Default)]
pub enum GameWorldState {
    /// No world is loaded yet.
    #[default]
    NoWorld,
    /// The game world is running.
    GameWorld,
}

} // verus!
