//! Scripts written down as blocks of steps.
use crate::action::Action;
use crate::script::{Outcome, Script};
use vstd::prelude::*;

verus! {

/// One step of a plan.
pub enum Step {
    /// Perform the action and go on.
    Do(Action),
    /// Perform the action; leave the plan unless it reports true.
    Need(Action),
    /// Perform the action, then one of two plans by what it reports, and go on.
    Choose(Action, Plan, Plan),
    /// Perform the actions in turn, as long as each reports true. Where one does not,
    /// carry out the plan instead of those that are left. Go on either way.
    Attempt(Vec<Action>, Plan),
    /// Carry out a plan and go on.
    Call(Plan),
    /// End the run.
    Finish(Outcome),
}

/// Steps to be taken in order.
pub struct Plan {
    pub steps: Vec<Step>,
}

/// The actions in turn, as long as each reports true, then `success`; `failure` once one
/// does not.
pub open spec fn attempt_script(actions: Seq<Action>, success: Script, failure: Script) -> Script
    decreases actions.len(),
{
    if actions.len() == 0 {
        success
    } else {
        Script::ask(
            actions[0],
            attempt_script(actions.drop_first(), success, failure),
            failure,
        )
    }
}

/// What the steps from index `at` on amount to, where `rest` comes after the last of
/// them.
pub open spec fn steps_script(steps: Seq<Step>, at: int, rest: Script) -> Script
    decreases steps, steps.len() - at,
{
    if at < 0 || at >= steps.len() {
        rest
    } else {
        let tail = steps_script(steps, at + 1, rest);
        match steps[at] {
            Step::Do(action) => Script::perform(action, tail),
            Step::Need(action) => Script::ask(action, tail, rest),
            Step::Choose(action, yes, no) => Script::ask(
                action,
                steps_script(yes.steps@, 0, tail),
                steps_script(no.steps@, 0, tail),
            ),
            Step::Attempt(actions, otherwise) => attempt_script(
                actions@,
                tail,
                steps_script(otherwise.steps@, 0, tail),
            ),
            Step::Call(plan) => steps_script(plan.steps@, 0, tail),
            Step::Finish(outcome) => Script::End(outcome),
        }
    }
}

impl Plan {
    /// What the plan amounts to, where `rest` comes after it.
    pub open spec fn script(self, rest: Script) -> Script {
        steps_script(self.steps@, 0, rest)
    }
}

impl Plan {
    /// A plan of no steps.
    pub fn empty() -> (r: Plan)
        ensures
            forall|rest: Script| #[trigger] r.script(rest) == rest,
    {
        Plan { steps: Vec::new() }
    }
}

/// Leaving out the first step is starting from the second.
pub proof fn lemma_drop_first_step(steps: Seq<Step>, at: int, rest: Script)
    requires
        0 <= at,
        0 < steps.len(),
    ensures
        steps_script(steps.drop_first(), at, rest) == steps_script(steps, at + 1, rest),
    decreases steps.len() - at,
{
    if at < steps.drop_first().len() {
        lemma_drop_first_step(steps, at + 1, rest);
        assert(steps.drop_first()[at] == steps[at + 1]);
    }
}

} // verus!
