//! Taking a border glass down.
use crate::action::{Action, AssociationPolicy};
use crate::plan::{Plan, Step};
use crate::script::Script;
use vstd::prelude::*;

verus! {

/// Takes the border down where there is one, and goes on with `removed` or `absent`.
///
/// The container forgets its border even where the border itself cannot be taken hold
/// of.
pub open spec fn remove_script(removed: Script, absent: Script) -> Script {
    let forget = Script::perform(Action::ForgetBorder(AssociationPolicy::Retain), removed);
    Script::ask(Action::FindBorder, detach_script(forget), absent)
}

/// Takes the border that was found out of its superview, where it can be taken hold of.
pub open spec fn detach_script(rest: Script) -> Script {
    Script::ask(Action::RetainBorder, Script::perform(Action::DetachBorder, rest), rest)
}

/// Has the container remember no border.
pub fn clear_associated_border_glass() -> (r: Plan)
    ensures
        forall|rest: Script|
            #[trigger] r.script(rest) == Script::perform(
                Action::ForgetBorder(AssociationPolicy::Retain),
                rest,
            ),
{
    proof {
        reveal_with_fuel(crate::plan::steps_script, 2);
    }
    Plan { steps: vec![Step::Do(Action::ForgetBorder(AssociationPolicy::Retain))] }
}

fn detach_border() -> (r: Plan)
    ensures
        forall|rest: Script| #[trigger] r.script(rest) == detach_script(rest),
{
    proof {
        reveal_with_fuel(crate::plan::steps_script, 3);
    }
    Plan { steps: vec![Step::Need(Action::RetainBorder), Step::Do(Action::DetachBorder)] }
}

/// Takes the border down where there is one, and goes on with `removed` or `absent`.
pub fn remove_existing_border_glass(removed: Plan, absent: Plan) -> (r: Plan)
    ensures
        forall|rest: Script|
            #[trigger] r.script(rest) == remove_script(removed.script(rest), absent.script(rest)),
{
    let detach = detach_border();
    let forget = clear_associated_border_glass();
    let found = Plan { steps: vec![Step::Call(detach), Step::Call(forget), Step::Call(removed)] };
    assert forall|rest: Script| #[trigger]
        found.script(rest) == detach_script(
            Script::perform(
                Action::ForgetBorder(AssociationPolicy::Retain),
                removed.script(rest),
            ),
        ) by {
        reveal_with_fuel(crate::plan::steps_script, 4);
        assert(found.script(rest) == detach.script(forget.script(removed.script(rest))));
    }
    proof {
        reveal_with_fuel(crate::plan::steps_script, 2);
    }
    let r = Plan { steps: vec![Step::Choose(Action::FindBorder, found, absent)] };
    assert forall|rest: Script| #[trigger]
        r.script(rest) == remove_script(removed.script(rest), absent.script(rest)) by {
        assert(r.script(rest) == Script::ask(
            Action::FindBorder,
            found.script(rest),
            absent.script(rest),
        ));
    }
    r
}

} // verus!
