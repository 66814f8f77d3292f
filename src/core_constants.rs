use vstd::prelude::*;

verus! {

/// The kind of a component.
#[derive(Debug, Clone, Copy, PartialEq, Eq, Structural, Hash)]
pub enum ComponentType {
    Area,
    Token,
}

impl ComponentType {
    /// The display name of a component kind.
    pub open spec fn name_spec(self) -> Seq<char> {
        match self {
            ComponentType::Area => "Area"@,
            ComponentType::Token => "Token"@,
        }
    }

    /// Returns the display name of this kind ("Area" or "Token").
    pub fn name(&self) -> (r: String)
        ensures
            r@ == self.name_spec(),
    {
        match self {
            ComponentType::Area => "Area".to_string(),
            ComponentType::Token => "Token".to_string(),
        }
    }
}

impl Default for ComponentType {
    fn default() -> (r: ComponentType)
        ensures
            r == ComponentType::Token,
    {
        ComponentType::Token
    }
}

/// Which players may observe the contents of a container. Advisory only: it is
/// enforced by presentation, not by the engine.
#[derive(Debug, Clone, Copy, PartialEq, Eq, Structural, Hash)]
pub enum VisibilityMode {
    VisibleToAll,
    HiddenToAll,
    VisibleToOwner,
    FirstVisibleToAll,
    LastVisibleToAll,
    MixedVisibility,
}

/// The outcome of a match, or of one player's part in it.
#[derive(Debug, Clone, Copy, PartialEq, Eq, Structural, Hash)]
pub enum GameResult {
    WinGame,
    WinRound,
    DrawGame,
    DrawRound,
    LoseRound,
    LoseGame,
    Disqualify,
    Timeout,
    GameOngoing,
    GameEnd,
}

impl GameResult {
    /// The scoring weight of each outcome.
    pub open spec fn value_spec(self) -> i8 {
        match self {
            GameResult::WinGame => 1i8,
            GameResult::WinRound => 0i8,
            GameResult::DrawGame => 0i8,
            GameResult::DrawRound => 0i8,
            GameResult::LoseRound => 0i8,
            GameResult::LoseGame => -1i8,
            GameResult::Disqualify => -2i8,
            GameResult::Timeout => -3i8,
            GameResult::GameOngoing => 0i8,
            GameResult::GameEnd => 3i8,
        }
    }

    pub fn value(&self) -> (r: i8)
        ensures
            r == self.value_spec(),
    {
        match self {
            GameResult::WinGame => 1,
            GameResult::WinRound => 0,
            GameResult::DrawGame => 0,
            GameResult::DrawRound => 0,
            GameResult::LoseRound => 0,
            GameResult::LoseGame => -1,
            GameResult::Disqualify => -2,
            GameResult::Timeout => -3,
            GameResult::GameOngoing => 0,
            GameResult::GameEnd => 3,
        }
    }
}

impl Default for GameResult {
    fn default() -> (r: GameResult)
        ensures
            r == GameResult::GameOngoing,
    {
        GameResult::GameOngoing
    }
}

} // verus!
