use vstd::prelude::*;

verus! {

/// The games the framework knows.
#[derive(Debug, Clone, Copy, PartialEq, Eq, Structural)]
pub enum GameType {
    Template,
    EasyBoop,
}

/// Broad categories of games.
#[derive(Debug, Clone, Copy, PartialEq, Eq, Structural)]
pub enum GameCategory {
    Abstract,
    Animals,
    Simple,
    Strategy,
}

/// Mechanics a game may use.
#[derive(Debug, Clone, Copy, PartialEq, Eq, Structural)]
pub enum GameMechanic {
    DiceRolling,
    HandManagement,
    PatternBuilding,
    PushYourLuck,
}

} // verus!
