use crate::core_constants::GameResult;
use crate::game_parameters::{AbstractParameters, ParameterValues};
use crate::glu::ExtendedGLU;
use crate::random::{draw_below, entropy_rng, seeded_rng};
use rand::rngs::StdRng;
use vstd::prelude::*;

verus! {

/// The state of a match, as plain values.
pub struct GameStateView {
    pub n_players: u8,
    pub parameters: ParameterValues,
    pub status: GameResult,
    pub results: Seq<GameResult>,
    pub turn_owner: i8,
    /// The sequence stack; its last entry is the active one.
    pub stack: Seq<ExtendedGLU>,
}

/// No two entries of the stack share an id.
pub open spec fn ids_unique(stack: Seq<ExtendedGLU>) -> bool {
    forall|i: int, j: int| 0 <= i < j < stack.len() ==> stack[i].id != stack[j].id
}

impl GameStateView {
    /// One result per player, and no two sequences in progress share an id.
    pub open spec fn wf(self) -> bool {
        &&& self.results.len() == self.n_players
        &&& ids_unique(self.stack)
    }
}

/// Some entry of the stack has the given id.
pub open spec fn holds_id(stack: Seq<ExtendedGLU>, id: i32) -> bool {
    exists|i: int| 0 <= i < stack.len() && stack[i].id == id
}

/// The stack after the completed entries at its back are removed: every
/// trailing entry flagged complete goes, down to the first one that is not.
pub open spec fn swept(stack: Seq<ExtendedGLU>) -> Seq<ExtendedGLU>
    decreases stack.len(),
{
    if stack.len() > 0 && stack.last().complete {
        swept(stack.drop_last())
    } else {
        stack
    }
}

/// The stack after `seq` is pushed: at the back without a parent, right after
/// the parent's entry with one. Pushing under an absent parent changes nothing.
pub open spec fn pushed(stack: Seq<ExtendedGLU>, seq: ExtendedGLU, parent_id: Option<i32>) -> Seq<
    ExtendedGLU,
> {
    match parent_id {
        None => stack.push(seq),
        Some(p) => if holds_id(stack, p) {
            let i = choose|i: int| 0 <= i < stack.len() && stack[i].id == p;
            stack.insert(i + 1, seq)
        } else {
            stack
        },
    }
}

proof fn lemma_pushed_ids_unique(stack: Seq<ExtendedGLU>, seq: ExtendedGLU, parent_id: Option<i32>)
    requires
        ids_unique(stack),
        !holds_id(stack, seq.id),
    ensures
        ids_unique(pushed(stack, seq, parent_id)),
{
    let t = pushed(stack, seq, parent_id);
    assert forall|a: int, b: int| 0 <= a < b < t.len() implies #[trigger] t[a].id != #[trigger] t[b].id by {
        match parent_id {
            None => {
                if b == stack.len() {
                    assert(stack[a].id != seq.id);
                }
            },
            Some(p) => {
                if holds_id(stack, p) {
                    let i = choose|i: int| 0 <= i < stack.len() && stack[i].id == p;
                    if a == i + 1 {
                        assert(stack[b - 1].id != seq.id);
                    } else if b == i + 1 {
                        assert(stack[a].id != seq.id);
                    } else if a > i + 1 {
                        assert(stack[a - 1].id != stack[b - 1].id);
                    } else if b > i + 1 {
                        assert(stack[a].id != stack[b - 1].id);
                    }
                }
            },
        }
    }
}

/// Where a push puts the new sequence: right after its parent's entry, which
/// sits at position `i`, so at position `i + 1`, with the entries before it in
/// place and those after it one further back; at the back when it has no
/// parent; nowhere, leaving the stack as it was, when the parent is absent.
pub proof fn lemma_push_positions(
    stack: Seq<ExtendedGLU>,
    seq: ExtendedGLU,
    parent_id: Option<i32>,
    i: int,
)
    requires
        ids_unique(stack),
    ensures
        parent_id is None ==> pushed(stack, seq, parent_id).len() == stack.len() + 1
            && pushed(stack, seq, parent_id).last() == seq && pushed(stack, seq, parent_id).drop_last()
            == stack,
        parent_id matches Some(p) && 0 <= i < stack.len() && stack[i].id == p ==> {
            let t = pushed(stack, seq, parent_id);
            &&& t.len() == stack.len() + 1
            &&& t[i + 1] == seq
            &&& forall|j: int| 0 <= j <= i ==> t[j] == stack[j]
            &&& forall|j: int| i + 1 < j < t.len() ==> t[j] == stack[j - 1]
        },
        parent_id matches Some(p) && !holds_id(stack, p) ==> pushed(stack, seq, parent_id)
            == stack,
{
    if parent_id is None {
        assert(stack.push(seq).drop_last() =~= stack);
    }
    if let Some(p) = parent_id {
        if 0 <= i < stack.len() && stack[i].id == p {
            let c = choose|c: int| 0 <= c < stack.len() && stack[c].id == p;
            assert(c == i);
        }
    }
}

/// Sweeping a stack whose back `k` entries are complete, and whose entry just
/// below them (if any) is not, removes exactly those `k` entries and keeps the
/// order of the rest.
pub proof fn lemma_sweep_removes_completed_suffix(stack: Seq<ExtendedGLU>, k: nat)
    requires
        k <= stack.len(),
        forall|i: int| stack.len() - k <= i < stack.len() ==> #[trigger] stack[i].complete,
        k < stack.len() ==> !stack[stack.len() - k - 1].complete,
    ensures
        swept(stack) == stack.subrange(0, stack.len() - k),
    decreases k,
{
    if k == 0 {
        assert(stack.subrange(0, stack.len() as int) =~= stack);
    } else {
        let rest = stack.drop_last();
        assert forall|i: int| rest.len() - (k - 1) <= i < rest.len() implies #[trigger] rest[i].complete by {
            assert(stack[i].complete);
        }
        lemma_sweep_removes_completed_suffix(rest, (k - 1) as nat);
        assert(rest.subrange(0, rest.len() - (k - 1)) =~= stack.subrange(0, stack.len() - k));
    }
}

/// The back of a swept stack is never complete.
pub proof fn lemma_swept_back_active(stack: Seq<ExtendedGLU>)
    ensures
        swept(stack).len() > 0 ==> !swept(stack).last().complete,
    decreases stack.len(),
{
    if stack.len() > 0 && stack.last().complete {
        lemma_swept_back_active(stack.drop_last());
    }
}

/// A second sweep with no completions in between removes nothing.
pub proof fn lemma_sweep_idempotent(stack: Seq<ExtendedGLU>)
    ensures
        swept(swept(stack)) == swept(stack),
{
    lemma_swept_back_active(stack);
}

/// The player who decides now: the owner of the active sequence when one is in
/// progress (the back of the stack, not yet complete), else the turn owner.
pub open spec fn current_player_spec(v: GameStateView) -> i8 {
    if v.stack.len() > 0 && !v.stack.last().complete {
        v.stack.last().player_id
    } else {
        v.turn_owner
    }
}

/// A fresh result vector: every player's match is ongoing.
pub open spec fn ongoing_results(n_players: u8) -> Seq<GameResult> {
    Seq::new(n_players as nat, |i: int| GameResult::GameOngoing)
}

/// The state at the start of a match: ongoing, no sequence in progress, the
/// first player to move. Player count and parameters are kept.
pub open spec fn reset_view(v: GameStateView) -> GameStateView {
    GameStateView {
        status: GameResult::GameOngoing,
        results: ongoing_results(v.n_players),
        turn_owner: 0,
        stack: Seq::empty(),
        ..v
    }
}

/// The state of one match: status, per-player results, turn owner, two
/// independent random streams, and the stack of extended sequences in progress.
///
/// The primary stream is seeded from the parameters and drives all gameplay;
/// the secondary one serves speculative reasoning only and never touches the
/// primary.
pub struct AbstractGameState {
    n_players: u8,
    game_parameters: AbstractParameters,
    game_status: GameResult,
    player_results: Vec<GameResult>,
    turn_owner: i8,
    rnd: StdRng,
    redetermination_rnd: StdRng,
    actions_in_progress: Vec<ExtendedGLU>,
}

impl View for AbstractGameState {
    type V = GameStateView;

    closed spec fn view(&self) -> GameStateView {
        GameStateView {
            n_players: self.n_players,
            parameters: self.game_parameters@,
            status: self.game_status,
            results: self.player_results@,
            turn_owner: self.turn_owner,
            stack: self.actions_in_progress@,
        }
    }
}

impl AbstractGameState {
    /// The primary random stream, which drives all gameplay.
    pub closed spec fn primary_stream(&self) -> StdRng {
        self.rnd
    }

    /// The secondary random stream, for speculative reasoning only.
    pub closed spec fn secondary_stream(&self) -> StdRng {
        self.redetermination_rnd
    }

    /// A match for `n_players` players. The primary stream is seeded from the
    /// parameters' seed; the secondary one from the system's entropy source,
    /// or from the complement of that seed when the source fails.
    pub fn new(game_parameters: AbstractParameters, n_players: u8) -> (r: Self)
        ensures
            r@ == (GameStateView {
                n_players,
                parameters: game_parameters@,
                status: GameResult::GameOngoing,
                results: ongoing_results(n_players),
                turn_owner: 0,
                stack: Seq::empty(),
            }),
            r@.wf(),
    {
        let player_results = Self::fresh_results(n_players);
        let seed = game_parameters.random_seed();
        let redetermination_rnd = match entropy_rng() {
            Some(rng) => rng,
            None => seeded_rng(!seed),
        };
        AbstractGameState {
            n_players,
            game_parameters,
            game_status: GameResult::GameOngoing,
            player_results,
            turn_owner: 0,
            rnd: seeded_rng(seed),
            redetermination_rnd,
            actions_in_progress: Vec::new(),
        }
    }

    fn fresh_results(n_players: u8) -> (r: Vec<GameResult>)
        ensures
            r@ == ongoing_results(n_players),
    {
        let mut r: Vec<GameResult> = Vec::new();
        let mut i: u8 = 0;
        while i < n_players
            invariant
                i <= n_players,
                r@ == Seq::new(i as nat, |j: int| GameResult::GameOngoing),
            decreases n_players - i,
        {
            r.push(GameResult::GameOngoing);
            i = i + 1;
            assert(r@ =~= Seq::new(i as nat, |j: int| GameResult::GameOngoing));
        }
        r
    }

    /// The player who decides now: the owner of the active sequence when one
    /// is in progress, else the turn owner.
    pub fn current_player(&self) -> (r: i8)
        ensures
            r == current_player_spec(self@),
    {
        match self.actions_in_progress.last() {
            Some(active) => if !active.complete {
                active.player_id
            } else {
                self.turn_owner
            },
            None => self.turn_owner,
        }
    }

    pub fn turn_owner(&self) -> (r: i8)
        ensures
            r == self@.turn_owner,
    {
        self.turn_owner
    }

    pub fn set_turn_owner(&mut self, turn_owner: i8)
        ensures
            final(self)@ == (GameStateView { turn_owner, ..old(self)@ }),
            final(self).primary_stream() == old(self).primary_stream(),
            final(self).secondary_stream() == old(self).secondary_stream(),
    {
        self.turn_owner = turn_owner;
    }

    pub fn n_players(&self) -> (r: u8)
        ensures
            r == self@.n_players,
    {
        self.n_players
    }

    pub fn game_parameters(&self) -> (r: &AbstractParameters)
        ensures
            r@ == self@.parameters,
    {
        &self.game_parameters
    }

    /// Draws a number below `bound` from the primary random stream.
    pub fn rnd(&mut self, bound: usize) -> (r: usize)
        requires
            bound > 0,
        ensures
            r < bound,
            final(self)@ == old(self)@,
            final(self).secondary_stream() == old(self).secondary_stream(),
    {
        draw_below(&mut self.rnd, bound)
    }

    /// Draws a number below `bound` from the secondary random stream, which
    /// serves speculative reasoning only.
    pub fn redetermination_rnd(&mut self, bound: usize) -> (r: usize)
        requires
            bound > 0,
        ensures
            r < bound,
            final(self)@ == old(self)@,
            final(self).primary_stream() == old(self).primary_stream(),
    {
        draw_below(&mut self.redetermination_rnd, bound)
    }

    pub fn game_status(&self) -> (r: &GameResult)
        ensures
            *r == self@.status,
    {
        &self.game_status
    }

    pub fn set_game_status(&mut self, game_status: GameResult)
        ensures
            final(self)@ == (GameStateView { status: game_status, ..old(self)@ }),
            final(self).primary_stream() == old(self).primary_stream(),
            final(self).secondary_stream() == old(self).secondary_stream(),
    {
        self.game_status = game_status;
    }

    pub fn player_results(&self) -> (r: &Vec<GameResult>)
        ensures
            r@ == self@.results,
    {
        &self.player_results
    }

    /// Records the result of player `id`.
    pub fn set_player_result(&mut self, player_result: GameResult, id: usize)
        requires
            old(self)@.wf(),
            id < old(self)@.n_players,
        ensures
            final(self)@ == (GameStateView {
                results: old(self)@.results.update(id as int, player_result),
                ..old(self)@
            }),
            final(self).primary_stream() == old(self).primary_stream(),
            final(self).secondary_stream() == old(self).secondary_stream(),
    {
        self.player_results.set(id, player_result);
    }

    /// Back to the start of a match: ongoing, every result ongoing, the first
    /// player to move, no sequence in progress. The random streams go on.
    pub fn reset(&mut self)
        ensures
            final(self)@ == reset_view(old(self)@),
            final(self).primary_stream() == old(self).primary_stream(),
            final(self).secondary_stream() == old(self).secondary_stream(),
    {
        self.game_status = GameResult::GameOngoing;
        self.player_results = Self::fresh_results(self.n_players);
        self.turn_owner = 0;
        self.actions_in_progress.clear();
    }

    /// The sequences in progress, the active one last.
    pub fn actions_in_progress(&self) -> (r: &Vec<ExtendedGLU>)
        ensures
            r@ == self@.stack,
    {
        &self.actions_in_progress
    }

    /// The active sequence: the back of the stack, if any.
    pub fn current_action_in_progress(&self) -> (r: Option<&ExtendedGLU>)
        ensures
            match r {
                Some(s) => self@.stack.len() > 0 && *s == self@.stack.last(),
                None => self@.stack.len() == 0,
            },
    {
        self.actions_in_progress.last()
    }

    /// The position on the stack of the sequence with the given id, if any.
    pub fn get_index_of_action_in_progress(&self, id: i32) -> (r: Option<usize>)
        requires
            self@.wf(),
        ensures
            match r {
                Some(i) => i < self@.stack.len() && self@.stack[i as int].id == id,
                None => !holds_id(self@.stack, id),
            },
    {
        let mut i: usize = 0;
        while i < self.actions_in_progress.len()
            invariant
                i <= self.actions_in_progress@.len(),
                forall|j: int| 0 <= j < i ==> self.actions_in_progress@[j].id != id,
            decreases self.actions_in_progress@.len() - i,
        {
            if self.actions_in_progress[i].id == id {
                return Some(i);
            }
            i = i + 1;
        }
        None
    }

    /// Puts `seq` on the stack: at the back when `parent_id` is none, right
    /// after the parent's entry otherwise. Fails, changing nothing, when the
    /// parent is not on the stack.
    pub fn push_action_in_progress(&mut self, seq: ExtendedGLU, parent_id: Option<i32>) -> (r:
        bool)
        requires
            old(self)@.wf(),
            !holds_id(old(self)@.stack, seq.id),
        ensures
            r == (parent_id is None || holds_id(old(self)@.stack, parent_id->0)),
            final(self)@ == (GameStateView {
                stack: pushed(old(self)@.stack, seq, parent_id),
                ..old(self)@
            }),
            final(self)@.wf(),
            final(self).primary_stream() == old(self).primary_stream(),
            final(self).secondary_stream() == old(self).secondary_stream(),
    {
        proof {
            lemma_pushed_ids_unique(old(self)@.stack, seq, parent_id);
        }
        match parent_id {
            None => {
                self.actions_in_progress.push(seq);
                true
            },
            Some(p) => {
                match self.get_index_of_action_in_progress(p) {
                    Some(i) => {
                        proof {
                            let stack = self.actions_in_progress@;
                            let c = choose|c: int| 0 <= c < stack.len() && stack[c].id == p;
                            assert(c == i);
                        }
                        let n = self.actions_in_progress.len();
                        assert(i < n);
                        self.actions_in_progress.insert(i + 1, seq);
                        true
                    },
                    None => false,
                }
            },
        }
    }

    /// Flags the sequence with the given id complete; false when no entry has it.
    pub fn mark_action_in_progress_complete(&mut self, id: i32) -> (r: bool)
        requires
            old(self)@.wf(),
        ensures
            final(self)@.wf(),
            r == holds_id(old(self)@.stack, id),
            r ==> exists|i: int|
                0 <= i < old(self)@.stack.len() && old(self)@.stack[i].id == id && final(self)@
                    == (GameStateView {
                    stack: old(self)@.stack.update(i, ExtendedGLU { complete: true, ..old(self)@.stack[i] }),
                    ..old(self)@
                }),
            !r ==> final(self)@ == old(self)@,
            final(self).primary_stream() == old(self).primary_stream(),
            final(self).secondary_stream() == old(self).secondary_stream(),
    {
        match self.get_index_of_action_in_progress(id) {
            Some(i) => {
                let mut entry = self.actions_in_progress[i];
                entry.complete = true;
                self.actions_in_progress.set(i, entry);
                true
            },
            None => false,
        }
    }

    /// The completion sweep: pops every completed sequence off the back of the
    /// stack, stopping at the first one still active.
    pub fn remove_completed_actions_in_progress(&mut self)
        ensures
            final(self)@ == (GameStateView { stack: swept(old(self)@.stack), ..old(self)@ }),
            final(self).primary_stream() == old(self).primary_stream(),
            final(self).secondary_stream() == old(self).secondary_stream(),
    {
        loop
            invariant
                self@ == (GameStateView { stack: self@.stack, ..old(self)@ }),
                swept(self@.stack) == swept(old(self)@.stack),
                self.primary_stream() == old(self).primary_stream(),
                self.secondary_stream() == old(self).secondary_stream(),
            ensures
                self@ == (GameStateView { stack: swept(old(self)@.stack), ..old(self)@ }),
            decreases self@.stack.len(),
        {
            let n = self.actions_in_progress.len();
            if n == 0 {
                break;
            }
            if !self.actions_in_progress[n - 1].complete {
                break;
            }
            self.actions_in_progress.pop();
        }
    }

    /// Sweeps, then tells whether any sequence is still in progress.
    pub fn has_pending_actions_in_progress(&mut self) -> (r: bool)
        ensures
            final(self)@ == (GameStateView { stack: swept(old(self)@.stack), ..old(self)@ }),
            r == (swept(old(self)@.stack).len() > 0),
            final(self).primary_stream() == old(self).primary_stream(),
            final(self).secondary_stream() == old(self).secondary_stream(),
    {
        self.remove_completed_actions_in_progress();
        self.actions_in_progress.len() > 0
    }
}

} // verus!
