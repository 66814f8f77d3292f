use crate::game_state::AbstractGameState;
use crate::game_parameters::AbstractParameters;
use crate::random::{draw_below, entropy_rng, seeded_rng};
use rand::rngs::StdRng;
use vstd::pervasive::cloned;
use vstd::prelude::*;

verus! {

/// Something that picks one action from the legal ones offered to it.
pub trait Player<A> {
    /// Picks the next action, given what the player observes and the legal
    /// actions on offer.
    fn next_action(&mut self, observation: &AbstractGameState, actions: &Vec<A>) -> A
        requires
            actions@.len() > 0,
    ;
}

/// A player that picks uniformly at random among the legal actions.
pub struct RandomPlayer {
    rnd: StdRng,
}

impl RandomPlayer {
    /// A random player with its own generator, seeded from the system's
    /// entropy source, or from the clock when that source fails.
    pub fn new() -> (r: Self) {
        let rnd = match entropy_rng() {
            Some(rng) => rng,
            None => seeded_rng(AbstractParameters::generate_random_seed()),
        };
        RandomPlayer { rnd }
    }
}

impl<A: Clone> Player<A> for RandomPlayer {
    /// A copy of one of the offered actions.
    fn next_action(&mut self, observation: &AbstractGameState, actions: &Vec<A>) -> (r: A)
        ensures
            exists|i: int| 0 <= i < actions@.len() && cloned(actions@[i], r),
    {
        let i = draw_below(&mut self.rnd, actions.len());
        actions[i].clone()
    }
}

} // verus!
