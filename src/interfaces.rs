use crate::game_state::{AbstractGameState, GameStateView};
use vstd::prelude::*;

verus! {

/// Something that can describe itself in the context of a game state.
pub trait IPrintable {
    /// A short description, given a game state for context.
    fn get_string(&self, game_state: &AbstractGameState) -> String;
}

/// A kind of action a game defines, with its own text form.
pub trait ActionType: Sized {
    /// The kind's name.
    fn name(&self) -> String;

    /// The kind that `value` names.
    fn parse_string(&self, value: &str) -> Self;

    /// The kind used when none is given.
    fn get_default(&self) -> Self;

    /// Whether the given player may act with this kind in the given state.
    fn can_execute(&self, game_state: &AbstractGameState, player: usize) -> bool;
}

/// A sequence that spawns child decisions and is told when they complete.
pub trait Spawnable {
    /// Called once the spawned decisions are complete.
    fn notify_completion(&self, state: &AbstractGameState);
}

/// A stateful decision procedure that may take several action submissions
/// to resolve, and owns the menu of legal actions while it is active.
pub trait ExtendedSequence: Sized {
    /// The actions the sequence offers.
    type Act;

    /// The actions on offer to the deciding player.
    fn compute_available_actions(&self, state: &AbstractGameState) -> Vec<Self::Act>;

    /// The player who decides now.
    fn current_player(&self, state: &AbstractGameState) -> i8;

    /// Called after an action has been applied; does nothing by default.
    fn after_action(&mut self, state: &AbstractGameState, action: &Self::Act) {
    }

    /// Called when a child sequence with the given id has completed; does
    /// nothing by default.
    fn child_executed(&mut self, state: &AbstractGameState, child_id: i32) {
    }

    /// What finalizing does to the sequence: relates it before to after.
    spec fn finalize_effect(&self, state: GameStateView, after: Self) -> bool;

    /// Whether the sequence is complete, finalizing it when it is.
    fn execution_complete(&mut self, state: &AbstractGameState) -> (r: bool)
        ensures
            call_ensures(Self::is_execution_complete, (&*old(self), state), r),
            r ==> old(self).finalize_effect(state@, *final(self)),
            !r ==> *final(self) == *old(self),
    {
        if self.is_execution_complete(state) {
            self.finalize(state);
            true
        } else {
            false
        }
    }

    /// Cleans up once the sequence is complete, notifying whatever spawned it.
    fn finalize(&mut self, state: &AbstractGameState)
        ensures
            old(self).finalize_effect(state@, *final(self)),
    ;

    /// Whether the sequence is complete; never, by default.
    fn is_execution_complete(&self, state: &AbstractGameState) -> bool {
        false
    }

    /// The sequence's id; none (-1) by default.
    fn id(&self) -> i32 {
        -1
    }

    /// A description of the sequence.
    fn get_string(&self, state: &AbstractGameState) -> String;
}

} // verus!
