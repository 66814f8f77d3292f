use crate::game_state::AbstractGameState;
use crate::ids::IdFountain;
use vstd::prelude::*;

verus! {

/// Id of a sequence that has no parent.
pub const NO_PARENT: i32 = -1;

/// Player index of a sequence that no player owns yet.
pub const NO_PLAYER: i8 = -1;

/// The game-specific payload of a single-step game logic unit.
#[derive(Debug, Clone, Copy, PartialEq, Eq, Structural)]
pub enum GLUType {
    Default,
    TypeA(TypeA),
}

/// The game-specific payload of an extended sequence.
#[derive(Debug, Clone, Copy, PartialEq, Eq, Structural)]
pub enum ExtendedGLUType {
    Default,
}

/// A unit that always completes in one step.
#[derive(Debug, Clone, Copy, PartialEq, Eq, Structural)]
pub struct TypeA {}

impl Default for GLUType {
    fn default() -> (r: GLUType)
        ensures
            r == GLUType::Default,
    {
        GLUType::Default
    }
}

impl Default for ExtendedGLUType {
    fn default() -> (r: ExtendedGLUType)
        ensures
            r == ExtendedGLUType::Default,
    {
        ExtendedGLUType::Default
    }
}

/// The actions a sequence offers while it is the active one.
pub open spec fn sequence_actions<A>(glu_type: ExtendedGLUType) -> Seq<A> {
    match glu_type {
        ExtendedGLUType::Default => Seq::empty(),
    }
}

/// Whether a single-step unit of the given payload completes when executed.
pub open spec fn completes_spec(glu_type: GLUType) -> bool {
    glu_type is TypeA
}

/// The behaviour of a single-step game logic unit.
pub trait GluTrait {
    /// Runs the unit; true when it has completed.
    fn execute(
        &mut self,
        game_state: &mut AbstractGameState,
        player_id: usize,
        parent_id: Option<usize>,
    ) -> bool;

    /// Whether the unit may run for the given player.
    fn can_execute(&self, game_state: &AbstractGameState, player_id: usize) -> bool;
}

/// The behaviour of a multi-step decision procedure.
pub trait ExtendedGluTrait {
    /// Runs one step; true when this submission completed the whole sequence.
    fn execute(
        &mut self,
        game_state: &mut AbstractGameState,
        player_id: usize,
        parent_id: Option<usize>,
    ) -> bool;

    /// Whether the sequence may run for the given player.
    fn can_execute(&self, game_state: &AbstractGameState, player_id: usize) -> bool;

    /// The actions offered while this sequence is the active one.
    fn compute_available_actions<A>(&self, game_state: &AbstractGameState) -> Vec<A>;
}

impl GluTrait for TypeA {
    fn execute(
        &mut self,
        game_state: &mut AbstractGameState,
        player_id: usize,
        parent_id: Option<usize>,
    ) -> (r: bool)
        ensures
            r,
            *final(game_state) == *old(game_state),
    {
        true
    }

    fn can_execute(&self, game_state: &AbstractGameState, player_id: usize) -> (r: bool)
        ensures
            r,
    {
        true
    }
}

impl GluTrait for GLUType {
    fn execute(
        &mut self,
        game_state: &mut AbstractGameState,
        player_id: usize,
        parent_id: Option<usize>,
    ) -> (r: bool)
        ensures
            r == completes_spec(*old(self)),
            *final(self) == *old(self),
            *final(game_state) == *old(game_state),
    {
        match self {
            GLUType::TypeA(t) => t.execute(game_state, player_id, parent_id),
            GLUType::Default => false,
        }
    }

    fn can_execute(&self, game_state: &AbstractGameState, player_id: usize) -> (r: bool)
        ensures
            r == completes_spec(*self),
    {
        match self {
            GLUType::TypeA(t) => t.can_execute(game_state, player_id),
            GLUType::Default => false,
        }
    }
}

impl ExtendedGluTrait for ExtendedGLUType {
    fn execute(
        &mut self,
        game_state: &mut AbstractGameState,
        player_id: usize,
        parent_id: Option<usize>,
    ) -> (r: bool)
        ensures
            !r,
            *final(self) == *old(self),
            *final(game_state) == *old(game_state),
    {
        match self {
            ExtendedGLUType::Default => false,
        }
    }

    fn can_execute(&self, game_state: &AbstractGameState, player_id: usize) -> (r: bool)
        ensures
            !r,
    {
        match self {
            ExtendedGLUType::Default => false,
        }
    }

    fn compute_available_actions<A>(&self, game_state: &AbstractGameState) -> (r: Vec<A>)
        ensures
            r@ == sequence_actions::<A>(*self),
    {
        match self {
            ExtendedGLUType::Default => Vec::new(),
        }
    }
}

/// A single-step game logic unit.
#[derive(Debug, Clone, Copy, PartialEq, Eq, Structural)]
pub struct GLU {
    pub id: i32,
    pub glu_type: GLUType,
}

impl Default for GLU {
    fn default() -> (r: GLU)
        ensures
            r == (GLU { id: 0, glu_type: GLUType::Default }),
    {
        GLU { id: 0, glu_type: GLUType::Default }
    }
}

impl GLU {
    /// A unit of the given payload with a fresh id.
    pub fn new(ids: &mut IdFountain, glu_type: GLUType) -> (r: Self)
        requires
            old(ids).can_draw(),
        ensures
            r.id as int == old(ids)@,
            r.glu_type == glu_type,
            final(ids)@ == old(ids)@ + 1,
    {
        GLU { id: Self::next_id(ids), glu_type }
    }

    /// Draws the next id from the shared allocator.
    pub fn next_id(ids: &mut IdFountain) -> (r: i32)
        requires
            old(ids).can_draw(),
        ensures
            r as int == old(ids)@,
            final(ids)@ == old(ids)@ + 1,
    {
        ids.next_id()
    }

    pub fn get_id(&self) -> (r: i32)
        ensures
            r == self.id,
    {
        self.id
    }

    pub fn get_type(&self) -> (r: GLUType)
        ensures
            r == self.glu_type,
    {
        self.glu_type
    }
}

impl GluTrait for GLU {
    fn execute(
        &mut self,
        game_state: &mut AbstractGameState,
        player_id: usize,
        parent_id: Option<usize>,
    ) -> (r: bool)
        ensures
            r == completes_spec(old(self).glu_type),
            *final(self) == *old(self),
            *final(game_state) == *old(game_state),
    {
        self.glu_type.execute(game_state, player_id, parent_id)
    }

    fn can_execute(&self, game_state: &AbstractGameState, player_id: usize) -> (r: bool)
        ensures
            r == completes_spec(self.glu_type),
    {
        self.glu_type.can_execute(game_state, player_id)
    }
}

/// A multi-step decision procedure that lives on the game state's stack.
#[derive(Debug, Clone, Copy, PartialEq, Eq, Structural)]
pub struct ExtendedGLU {
    pub id: i32,
    pub glu_type: ExtendedGLUType,
    pub parent_id: i32,
    pub player_id: i8,
    pub complete: bool,
}

impl ExtendedGLU {
    /// A pending sequence of the given payload with a fresh id, no parent and
    /// no owning player.
    pub fn new(ids: &mut IdFountain, glu_type: ExtendedGLUType) -> (r: Self)
        requires
            old(ids).can_draw(),
        ensures
            r == (ExtendedGLU {
                id: old(ids)@ as i32,
                glu_type,
                parent_id: NO_PARENT,
                player_id: NO_PLAYER,
                complete: false,
            }),
            final(ids)@ == old(ids)@ + 1,
    {
        ExtendedGLU {
            id: GLU::next_id(ids),
            glu_type,
            parent_id: NO_PARENT,
            player_id: NO_PLAYER,
            complete: false,
        }
    }

    pub fn get_id(&self) -> (r: i32)
        ensures
            r == self.id,
    {
        self.id
    }

    pub fn get_type(&self) -> (r: ExtendedGLUType)
        ensures
            r == self.glu_type,
    {
        self.glu_type
    }

    pub fn execution_completed(&self) -> (r: bool)
        ensures
            r == self.complete,
    {
        self.complete
    }

    pub fn current_player(&self) -> (r: i8)
        ensures
            r == self.player_id,
    {
        self.player_id
    }

    pub fn parent_id(&self) -> (r: i32)
        ensures
            r == self.parent_id,
    {
        self.parent_id
    }
}

impl ExtendedGluTrait for ExtendedGLU {
    fn execute(
        &mut self,
        game_state: &mut AbstractGameState,
        player_id: usize,
        parent_id: Option<usize>,
    ) -> (r: bool)
        ensures
            !r,
            *final(self) == *old(self),
            *final(game_state) == *old(game_state),
    {
        self.glu_type.execute(game_state, player_id, parent_id)
    }

    fn can_execute(&self, game_state: &AbstractGameState, player_id: usize) -> (r: bool)
        ensures
            !r,
    {
        self.glu_type.can_execute(game_state, player_id)
    }

    fn compute_available_actions<A>(&self, game_state: &AbstractGameState) -> (r: Vec<A>)
        ensures
            r@ == sequence_actions::<A>(self.glu_type),
    {
        self.glu_type.compute_available_actions(game_state)
    }
}

} // verus!
