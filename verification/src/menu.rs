//! The main menu's mapping from free-text answers to actions, and the
//! reading of yes/no answers.

use vstd::prelude::*;
use crate::text::{trimmed, trim_str, str_eq};

verus! {

/// What a main-menu answer maps to.
#[derive(Clone, Copy, PartialEq, Eq, Structural, Debug)]
pub enum MainAction {
    AddWorkout,
    AddExercise,
    Exit,
    Idle,
}

/// The action a menu line maps to: after trimming, "1" records a
/// workout, "2" defines an exercise, "0" leaves; anything else idles.
pub open spec fn action_spec(s: Seq<char>) -> MainAction {
    let t = trimmed(s);
    if t == seq!['1'] {
        MainAction::AddWorkout
    } else if t == seq!['2'] {
        MainAction::AddExercise
    } else if t == seq!['0'] {
        MainAction::Exit
    } else {
        MainAction::Idle
    }
}

/// Map a menu answer to its action, as `action_spec` says.
pub fn str_to_action(action: &str) -> (r: MainAction)
    ensures
        r == action_spec(action@),
{
    proof {
        reveal_strlit("1");
        reveal_strlit("2");
        reveal_strlit("0");
        assert("1"@ =~= seq!['1']);
        assert("2"@ =~= seq!['2']);
        assert("0"@ =~= seq!['0']);
    }
    let t = trim_str(action);
    if str_eq(t.as_str(), "1") {
        MainAction::AddWorkout
    } else if str_eq(t.as_str(), "2") {
        MainAction::AddExercise
    } else if str_eq(t.as_str(), "0") {
        MainAction::Exit
    } else {
        MainAction::Idle
    }
}

/// Decisions on lines of input. The reading itself is done by the
/// surrounding program, which hands the line in.
pub struct Input {}

impl Input {
    pub fn new() -> (r: Self) {
        Input {  }
    }

    /// Is `answer` affirmative? Only exactly "y", once trimmed, counts
    /// as yes; every other answer is no.
    pub fn yes_or_no(answer: &str) -> (r: bool)
        ensures
            r == (trimmed(answer@) == seq!['y']),
    {
        proof {
            reveal_strlit("y");
            assert("y"@ =~= seq!['y']);
        }
        let t = trim_str(answer);
        str_eq(t.as_str(), "y")
    }
}

} // verus!
