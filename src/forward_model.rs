use crate::core_constants::GameResult;
use crate::game_state::{ongoing_results, reset_view, swept, AbstractGameState, GameStateView};
use crate::game_state::lemma_swept_back_active;
use crate::glu::{sequence_actions, ExtendedGluTrait};
use vstd::prelude::*;

verus! {

/// The state once the match is declared ongoing for everyone: what the
/// engine prepares before a game's own setup runs.
pub open spec fn ongoing_view(v: GameStateView) -> GameStateView {
    GameStateView { status: GameResult::GameOngoing, results: ongoing_results(v.n_players), ..v }
}

/// The state after the completion sweep.
pub open spec fn swept_view(v: GameStateView) -> GameStateView {
    GameStateView { stack: swept(v.stack), ..v }
}

/// The rules of one game, and the engine's orchestration around them.
///
/// A game supplies its setup, its transition for one action and its default
/// menu of legal actions; the engine resets the match, sweeps completed
/// sequences after each action, and hands the menu to the active sequence
/// whenever one is in progress.
pub trait ForwardModel {
    /// The game's actions.
    type Act;

    /// What the game's setup does: relates the state handed to it to the
    /// state it leaves.
    spec fn setup_effect(&self, before: GameStateView, after: GameStateView) -> bool;

    /// What the game's rules do with one action: relates the state before it
    /// to the state they leave.
    spec fn next_effect(&self, before: GameStateView, action: Self::Act, after: GameStateView) -> bool;

    /// Arranges the initial board, decks, hands and the like.
    fn setup_impl(&self, first_state: &mut AbstractGameState)
        requires
            old(first_state)@.wf(),
        ensures
            final(first_state)@.wf(),
            self.setup_effect(old(first_state)@, final(first_state)@),
            final(first_state)@.n_players == old(first_state)@.n_players,
            final(first_state)@.parameters == old(first_state)@.parameters,
    ;

    /// Applies all of one action's consequences under the game's rules.
    fn next_impl(&self, current_state: &mut AbstractGameState, action: Self::Act)
        requires
            old(current_state)@.wf(),
        ensures
            final(current_state)@.wf(),
            self.next_effect(old(current_state)@, action, final(current_state)@),
            final(current_state)@.n_players == old(current_state)@.n_players,
            final(current_state)@.parameters == old(current_state)@.parameters,
    ;

    /// The game's default menu of legal actions, used when no sequence is in
    /// progress.
    fn compute_available_actions_impl(&self, current_state: &AbstractGameState) -> Vec<Self::Act>;

    /// Declares the match and every player's part in it ongoing, then runs the
    /// game's setup on the state so prepared.
    fn abstract_setup(&self, first_state: &mut AbstractGameState)
        requires
            old(first_state)@.wf(),
        ensures
            final(first_state)@.wf(),
            self.setup_effect(ongoing_view(old(first_state)@), final(first_state)@),
            final(first_state)@.n_players == old(first_state)@.n_players,
            final(first_state)@.parameters == old(first_state)@.parameters,
    {
        first_state.set_game_status(GameResult::GameOngoing);
        let n = first_state.n_players();
        let mut i: u8 = 0;
        while i < n
            invariant
                i <= n,
                n == old(first_state)@.n_players,
                first_state@.wf(),
                first_state@ == (GameStateView { results: first_state@.results, ..ongoing_view(old(first_state)@) }),
                forall|j: int| 0 <= j < i ==> first_state@.results[j] == GameResult::GameOngoing,
            decreases n - i,
        {
            first_state.set_player_result(GameResult::GameOngoing, i as usize);
            i = i + 1;
        }
        assert(first_state@.results =~= ongoing_results(n));
        assert(first_state@ == ongoing_view(old(first_state)@));
        self.setup_impl(first_state);
    }

    /// Starts a new match: resets the state, then sets it up.
    fn setup(&self, game_state: &mut AbstractGameState)
        ensures
            final(game_state)@.wf(),
            self.setup_effect(ongoing_view(reset_view(old(game_state)@)), final(game_state)@),
            final(game_state)@.n_players == old(game_state)@.n_players,
            final(game_state)@.parameters == old(game_state)@.parameters,
    {
        game_state.reset();
        assert(reset_view(old(game_state)@).wf());
        self.abstract_setup(game_state);
    }

    /// Applies an action under the game's rules, then sweeps completed
    /// sequences off the stack. The action is not checked for legality.
    fn next(&self, current_state: &mut AbstractGameState, action: Self::Act)
        requires
            old(current_state)@.wf(),
        ensures
            final(current_state)@.wf(),
            final(current_state)@.n_players == old(current_state)@.n_players,
            final(current_state)@.parameters == old(current_state)@.parameters,
            final(current_state)@.stack.len() > 0 ==> !final(current_state)@.stack.last().complete,
            exists|mid: GameStateView|
                #![trigger self.next_effect(old(current_state)@, action, mid)]
                self.next_effect(old(current_state)@, action, mid) && final(current_state)@
                    == swept_view(mid),
    {
        self.next_impl(current_state, action);
        let ghost mid = current_state@;
        current_state.remove_completed_actions_in_progress();
        proof {
            lemma_swept_keeps_wf(mid);
            lemma_swept_back_active(mid.stack);
        }
    }

    /// The actions on offer: after the sweep, the active sequence's own when a
    /// sequence is in progress, the game's default menu otherwise.
    fn compute_available_actions(&self, current_state: &mut AbstractGameState) -> (r: Vec<
        Self::Act,
    >)
        ensures
            final(current_state)@ == swept_view(old(current_state)@),
            swept(old(current_state)@.stack).len() > 0 ==> r@ == sequence_actions::<Self::Act>(
                swept(old(current_state)@.stack).last().glu_type,
            ),
            swept(old(current_state)@.stack).len() == 0 ==> call_ensures(
                Self::compute_available_actions_impl,
                (self, &*final(current_state)),
                r,
            ),
    {
        if current_state.has_pending_actions_in_progress() {
            match current_state.current_action_in_progress() {
                Some(active) => active.compute_available_actions(current_state),
                None => Vec::new(),
            }
        } else {
            self.compute_available_actions_impl(current_state)
        }
    }
}

/// Sweeping keeps a state well formed.
pub proof fn lemma_swept_keeps_wf(v: GameStateView)
    requires
        v.wf(),
    ensures
        swept_view(v).wf(),
    decreases v.stack.len(),
{
    if v.stack.len() > 0 && v.stack.last().complete {
        lemma_swept_keeps_wf(GameStateView { stack: v.stack.drop_last(), ..v });
    }
}

} // verus!
