use std::time::{Duration, UNIX_EPOCH};
use vstd::prelude::*;

verus! {

/// Marker for the parameter sets of games.
pub trait GameParameters {

}

/// The parameter values, as plain values.
pub struct ParameterValues {
    pub random_seed: u64,
    pub max_rounds: i32,
    pub timeout_rounds: i32,
    pub thinking_time_mins: i64,
    pub increment_action_s: i64,
    pub increment_turn_s: i64,
    pub increment_round_s: i64,
    pub increment_milestone_s: i64,
}

/// Parameters shared by every game: the seed of the primary random stream,
/// round limits and time controls.
#[derive(Debug)]
pub struct AbstractParameters {
    random_seed: u64,
    max_rounds: i32,
    timeout_rounds: i32,
    thinking_time_mins: i64,
    increment_action_s: i64,
    increment_turn_s: i64,
    increment_round_s: i64,
    increment_milestone_s: i64,
}

impl View for AbstractParameters {
    type V = ParameterValues;

    closed spec fn view(&self) -> ParameterValues {
        ParameterValues {
            random_seed: self.random_seed,
            max_rounds: self.max_rounds,
            timeout_rounds: self.timeout_rounds,
            thinking_time_mins: self.thinking_time_mins,
            increment_action_s: self.increment_action_s,
            increment_turn_s: self.increment_turn_s,
            increment_round_s: self.increment_round_s,
            increment_milestone_s: self.increment_milestone_s,
        }
    }
}

/// Relies on `SystemTime::elapsed` called on `UNIX_EPOCH`: the time from the
/// epoch to now, none when the clock reads earlier than the epoch.
#[verifier::external_body]
fn time_since_epoch() -> (r: Option<Duration>) {
    match UNIX_EPOCH.elapsed() {
        Ok(elapsed) => Some(elapsed),
        Err(_) => None,
    }
}

/// Relies on `Duration::as_secs`: the whole seconds of a duration.
pub assume_specification[ Duration::as_secs ](d: &Duration) -> u64;

/// Everything but the seed is the same in `a` and `b`.
pub open spec fn same_settings(a: ParameterValues, b: ParameterValues) -> bool {
    &&& a.max_rounds == b.max_rounds
    &&& a.timeout_rounds == b.timeout_rounds
    &&& a.thinking_time_mins == b.thinking_time_mins
    &&& a.increment_action_s == b.increment_action_s
    &&& a.increment_turn_s == b.increment_turn_s
    &&& a.increment_round_s == b.increment_round_s
    &&& a.increment_milestone_s == b.increment_milestone_s
}

/// The default settings: no round limits, ninety minutes of thinking time and
/// no increments.
pub open spec fn default_settings(p: ParameterValues) -> bool {
    &&& p.max_rounds == -1
    &&& p.timeout_rounds == -1
    &&& p.thinking_time_mins == 90
    &&& p.increment_action_s == 0
    &&& p.increment_turn_s == 0
    &&& p.increment_round_s == 0
    &&& p.increment_milestone_s == 0
}

impl AbstractParameters {
    /// The default settings with a seed taken from the clock.
    pub fn new() -> (r: Self)
        ensures
            default_settings(r@),
    {
        AbstractParameters::default()
    }

    /// The default settings with the given seed.
    pub fn with_seed(random_seed: u64) -> (r: Self)
        ensures
            default_settings(r@),
            r@.random_seed == random_seed,
    {
        AbstractParameters {
            random_seed,
            max_rounds: -1,
            timeout_rounds: -1,
            thinking_time_mins: 90,
            increment_action_s: 0,
            increment_turn_s: 0,
            increment_round_s: 0,
            increment_milestone_s: 0,
        }
    }

    /// A seed from the clock: whole seconds since the epoch, zero when the
    /// clock reads earlier than the epoch.
    pub(crate) fn generate_random_seed() -> (r: u64) {
        match time_since_epoch() {
            Some(elapsed) => elapsed.as_secs(),
            None => 0,
        }
    }

    pub fn random_seed(&self) -> (r: u64)
        ensures
            r == self@.random_seed,
    {
        self.random_seed
    }

    pub fn max_rounds(&self) -> (r: i32)
        ensures
            r == self@.max_rounds,
    {
        self.max_rounds
    }

    pub fn timeout_rounds(&self) -> (r: i32)
        ensures
            r == self@.timeout_rounds,
    {
        self.timeout_rounds
    }

    pub fn thinking_time_mins(&self) -> (r: i64)
        ensures
            r == self@.thinking_time_mins,
    {
        self.thinking_time_mins
    }

    pub fn increment_action_s(&self) -> (r: i64)
        ensures
            r == self@.increment_action_s,
    {
        self.increment_action_s
    }

    pub fn increment_turn_s(&self) -> (r: i64)
        ensures
            r == self@.increment_turn_s,
    {
        self.increment_turn_s
    }

    pub fn increment_round_s(&self) -> (r: i64)
        ensures
            r == self@.increment_round_s,
    {
        self.increment_round_s
    }

    pub fn increment_milestone_s(&self) -> (r: i64)
        ensures
            r == self@.increment_milestone_s,
    {
        self.increment_milestone_s
    }
}

impl Default for AbstractParameters {
    fn default() -> (r: Self)
        ensures
            default_settings(r@),
    {
        AbstractParameters::with_seed(Self::generate_random_seed())
    }
}

/// A copy of the settings with a new seed from the clock.
impl Clone for AbstractParameters {
    fn clone(&self) -> (r: Self)
        ensures
            same_settings(r@, self@),
    {
        AbstractParameters {
            random_seed: Self::generate_random_seed(),
            max_rounds: self.max_rounds,
            timeout_rounds: self.timeout_rounds,
            thinking_time_mins: self.thinking_time_mins,
            increment_action_s: self.increment_action_s,
            increment_turn_s: self.increment_turn_s,
            increment_round_s: self.increment_round_s,
            increment_milestone_s: self.increment_milestone_s,
        }
    }
}

/// Parameter sets are the same when all settings but the seed are.
impl PartialEq for AbstractParameters {
    fn eq(&self, other: &AbstractParameters) -> (r: bool) {
        self.max_rounds == other.max_rounds && self.timeout_rounds == other.timeout_rounds
            && self.thinking_time_mins == other.thinking_time_mins && self.increment_action_s
            == other.increment_action_s && self.increment_turn_s == other.increment_turn_s
            && self.increment_round_s == other.increment_round_s && self.increment_milestone_s
            == other.increment_milestone_s
    }
}

impl vstd::std_specs::cmp::PartialEqSpecImpl for AbstractParameters {
    open spec fn obeys_eq_spec() -> bool {
        true
    }

    open spec fn eq_spec(&self, other: &AbstractParameters) -> bool {
        same_settings(self@, other@)
    }
}

impl Eq for AbstractParameters {

}

impl GameParameters for AbstractParameters {

}

} // verus!
