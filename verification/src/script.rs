//! Decision trees.
use crate::action::Action;
use vstd::prelude::*;

verus! {

/// How a run ends.
#[derive(Clone, Copy, Debug, PartialEq, Eq)]
pub enum Outcome {
    /// The border glass is up.
    Applied,
    /// There is no border glass any more; whether there was one before.
    Cleared(bool),
}

/// What a run does, for whatever its actions report.
pub enum Script {
    /// Nothing more.
    End(Outcome),
    /// The action, then one of two scripts, by what it reports.
    Next(Action, Box<Script>, Box<Script>),
}

impl Script {
    /// The action, then `yes` or `no` by what it reports.
    pub open spec fn ask(action: Action, yes: Script, no: Script) -> Script {
        Script::Next(action, Box::new(yes), Box::new(no))
    }

    /// The action, then `rest` whatever it reports.
    pub open spec fn perform(action: Action, rest: Script) -> Script {
        Script::ask(action, rest, rest)
    }

    /// The first action.
    pub open spec fn head(self) -> Option<Action> {
        match self {
            Script::End(_) => None,
            Script::Next(action, _, _) => Some(action),
        }
    }

    /// The outcome of a script that does nothing more.
    pub open spec fn outcome(self) -> Option<Outcome> {
        match self {
            Script::End(outcome) => Some(outcome),
            Script::Next(_, _, _) => None,
        }
    }

    /// What is left once the first action has reported.
    pub open spec fn after(self, reply: bool) -> Script {
        match self {
            Script::End(_) => self,
            Script::Next(_, yes, no) => if reply {
                *yes
            } else {
                *no
            },
        }
    }

    /// The greatest number of actions that the script can take.
    pub open spec fn length(self) -> nat
        decreases self,
    {
        match self {
            Script::End(_) => 0,
            Script::Next(_, yes, no) => {
                let (y, n) = (yes.length(), no.length());
                1 + if y >= n {
                    y
                } else {
                    n
                }
            },
        }
    }

    /// Whether the script ends in the outcome, whatever its actions report.
    pub open spec fn always_ends_in(self, outcome: Outcome) -> bool
        decreases self,
    {
        match self {
            Script::End(o) => o == outcome,
            Script::Next(_, yes, no) => yes.always_ends_in(outcome) && no.always_ends_in(outcome),
        }
    }

    /// Whether the script comes to `door` and goes on from there, whatever its actions
    /// report.
    pub open spec fn always_reaches(self, door: Script) -> bool
        decreases self,
    {
        self == door || match self {
            Script::End(_) => false,
            Script::Next(_, yes, no) => yes.always_reaches(door) && no.always_reaches(door),
        }
    }

    /// The actions that the script takes, where the first of them reports `replies(at)`,
    /// the next `replies(at + 1)` and so on.
    pub open spec fn trace(self, replies: spec_fn(int) -> bool, at: int) -> Seq<Action>
        decreases self,
    {
        match self {
            Script::End(_) => Seq::empty(),
            Script::Next(action, yes, no) => {
                let rest = if replies(at) {
                    yes.trace(replies, at + 1)
                } else {
                    no.trace(replies, at + 1)
                };
                seq![action] + rest
            },
        }
    }
}

} // verus!
