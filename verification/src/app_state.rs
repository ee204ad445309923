//! Phases of the program around a level.

use vstd::prelude::*;

verus! {

/// Whether the program's assets have been loaded.
#[derive(Debug, Clone, Copy, PartialEq, Eq, Hash, Structural)]
pub enum AppLoadingState {
    Loading,
    Loaded,
}

impl Default for AppLoadingState {
    fn default() -> (r: Self)
        ensures
            r == AppLoadingState::Loading,
    {
        AppLoadingState::Loading
    }
}

/// The screen the program shows.
#[derive(Debug, Clone, Copy, PartialEq, Eq, Hash, Structural)]
pub enum AppState {
    Loading,
    MainMenu,
    Credits,
    ChooseLevel,
    InGame,
}

impl Default for AppState {
    fn default() -> (r: Self)
        ensures
            r == AppState::Loading,
    {
        AppState::Loading
    }
}

} // verus!
