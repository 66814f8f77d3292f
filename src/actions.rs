use crate::game_state::{current_player_spec, AbstractGameState};
use crate::glu::GLU;
use crate::ids::IdFountain;
use std::collections::HashSet;
use vstd::prelude::*;
use vstd::std_specs::iter::IteratorSpec;
use vstd::string::StringExecFns;

verus! {

/// The character of a decimal digit.
pub open spec fn digit_char(d: nat) -> char {
    if d == 0 {
        '0'
    } else if d == 1 {
        '1'
    } else if d == 2 {
        '2'
    } else if d == 3 {
        '3'
    } else if d == 4 {
        '4'
    } else if d == 5 {
        '5'
    } else if d == 6 {
        '6'
    } else if d == 7 {
        '7'
    } else if d == 8 {
        '8'
    } else {
        '9'
    }
}

/// The decimal digits of a natural number, most significant first.
pub open spec fn digits_of(n: nat) -> Seq<char>
    decreases n,
{
    if n < 10 {
        seq![digit_char(n)]
    } else {
        digits_of(n / 10).push(digit_char(n % 10))
    }
}

/// The decimal text of an integer, with a leading minus sign when negative.
pub open spec fn decimal_spec(n: int) -> Seq<char> {
    if n < 0 {
        seq!['-'] + digits_of((-n) as nat)
    } else {
        digits_of(n as nat)
    }
}

/// Relies on `i32`'s `Display`, through `ToString::to_string`: the decimal
/// text of the number.
#[verifier::external_body]
fn decimal_text(n: i32) -> (r: String)
    ensures
        r@ == decimal_spec(n as int),
{
    n.to_string()
}

/// `q` is a fitting perspective from which to describe an action to the
/// viewers in `viewers`: the current player when among them, else one of the
/// viewers, else (no viewers) the current player.
pub open spec fn fits_perspective(current_player: i8, viewers: Set<i8>, q: i8) -> bool {
    &&& viewers.contains(current_player) ==> q == current_player
    &&& !viewers.contains(current_player) && !viewers.is_empty() ==> viewers.contains(q)
    &&& viewers.is_empty() ==> q == current_player
}

/// The perspective from which to describe an action to a set of viewers.
pub fn perspective_for(current_player: i8, perspective_set: &HashSet<i8>) -> (r: i8)
    ensures
        fits_perspective(current_player, perspective_set@, r),
{
    if perspective_set.contains(&current_player) {
        return current_player;
    }
    for p in it: perspective_set.iter()
        invariant
            it.index() == 0,
            !perspective_set@.contains(current_player),
            it.seq() == vstd::std_specs::hash::spec_hash_keys_iter(perspective_set).remaining(),
    {
        assert(vstd::std_specs::hash::spec_hash_keys_iter(perspective_set).remaining().unref().to_set().contains(*p));
        return *p;
    }
    proof {
        let s = vstd::std_specs::hash::spec_hash_keys_iter(perspective_set).remaining().unref();
        assert(s.len() == 0);
        assert(s.to_set() =~= Set::empty());
    }
    current_player
}

/// An atomic command that a player submits and the engine applies.
pub trait Action {
    /// The action's id.
    spec fn action_id(&self) -> i32;

    /// Applies the action to the state; by default it does nothing and reports
    /// false.
    fn execute(&self, gs: &mut AbstractGameState) -> bool {
        false
    }

    /// A description of the action.
    fn get_string(&self, gs: &AbstractGameState) -> String;

    /// A description of the action as the given player may see it.
    fn get_string_perspective(&self, gs: &AbstractGameState, perspective_player: i8) -> String {
        self.get_string(gs)
    }

    /// A description of the action as seen by a set of viewers: from the
    /// current player's perspective when among them, else from some viewer's.
    fn get_string_perspectives(&self, gs: &AbstractGameState, perspective_set: &HashSet<i8>) -> (r:
        String)
        ensures
            exists|q: i8|
                fits_perspective(current_player_spec(gs@), perspective_set@, q) && call_ensures(
                    Self::get_string_perspective,
                    (self, gs, q),
                    r,
                ),
    {
        let perspective = perspective_for(gs.current_player(), perspective_set);
        self.get_string_perspective(gs, perspective)
    }

    /// A tooltip for a graphical display; empty by default.
    fn get_tooltip(&self, gs: &AbstractGameState) -> String {
        String::new()
    }

    /// The action's id.
    fn id(&self) -> (r: i32)
        ensures
            r == self.action_id(),
    ;
}

/// An action with nothing but an id.
#[derive(Debug, Clone, Copy, PartialEq, Eq, Structural, Hash)]
pub struct AbstractAction {
    id: i32,
}

impl AbstractAction {
    /// An action with a fresh id.
    pub fn new(ids: &mut IdFountain) -> (r: Self)
        requires
            old(ids).can_draw(),
        ensures
            r.action_id() as int == old(ids)@,
            final(ids)@ == old(ids)@ + 1,
    {
        AbstractAction { id: GLU::next_id(ids) }
    }

    /// An action with an id chosen by the caller.
    pub fn with_id(id: i32) -> (r: Self)
        ensures
            r.action_id() == id,
    {
        AbstractAction { id }
    }
}

impl Action for AbstractAction {
    closed spec fn action_id(&self) -> i32 {
        self.id
    }

    fn get_string(&self, gs: &AbstractGameState) -> (r: String)
        ensures
            r@ == "Action with ID: "@ + decimal_spec(self.action_id() as int),
    {
        let number = decimal_text(self.id);
        String::from_str("Action with ID: ").concat(number.as_str())
    }

    fn id(&self) -> (r: i32) {
        self.id
    }
}

/// An action that changes nothing.
#[derive(Debug, Clone, Copy, PartialEq, Eq, Structural, Hash)]
pub struct DoNothing {
    data: AbstractAction,
}

impl DoNothing {
    /// A do-nothing action with a fresh id.
    pub fn new(ids: &mut IdFountain) -> (r: Self)
        requires
            old(ids).can_draw(),
        ensures
            r.action_id() as int == old(ids)@,
            final(ids)@ == old(ids)@ + 1,
    {
        DoNothing { data: AbstractAction::new(ids) }
    }
}

impl Action for DoNothing {
    closed spec fn action_id(&self) -> i32 {
        self.data.action_id()
    }

    /// Leaves the state as it is and reports success.
    fn execute(&self, gs: &mut AbstractGameState) -> (r: bool)
        ensures
            r,
            *final(gs) == *old(gs),
    {
        true
    }

    fn get_string(&self, gs: &AbstractGameState) -> (r: String)
        ensures
            r@ == "DoNothing"@,
    {
        String::from_str("DoNothing")
    }

    fn id(&self) -> (r: i32) {
        self.data.id()
    }
}

} // verus!
