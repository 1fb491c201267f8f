//! Making the view.
use crate::action::{Action, Autoresizing, BlendingMode, Material, ViewClass};
use crate::options::NSVisualEffectState;
use crate::plan::{Plan, Step};
use crate::script::Script;
use vstd::prelude::*;

verus! {

/// Both sides follow the superview's.
pub open spec fn spec_follow_superview() -> Autoresizing {
    Autoresizing { width: true, height: true }
}

/// Makes a visual effect view that is always active and blends what lies behind the
/// window.
pub open spec fn visual_effect_script(rest: Script) -> Script {
    Script::perform(
        Action::MakeVisualEffectView,
        Script::perform(
            Action::SetBlendingMode(BlendingMode::BehindWindow),
            Script::perform(
                Action::SetMaterial(Material::UnderWindowBackground),
                Script::perform(
                    Action::SetVisualEffectState(NSVisualEffectState::Active),
                    Script::perform(
                        Action::SetAutoresizing(ViewClass::VisualEffect, spec_follow_superview()),
                        rest,
                    ),
                ),
            ),
        ),
    )
}

/// Makes a view as large as the container: a glass view, or a visual effect view where
/// there is no glass to be had.
pub open spec fn create_script(rest: Script) -> Script {
    Script::perform(
        Action::ReadContainerBounds,
        Script::ask(
            Action::MakeGlassView,
            Script::perform(
                Action::SetAutoresizing(ViewClass::Glass, spec_follow_superview()),
                rest,
            ),
            visual_effect_script(rest),
        ),
    )
}

fn make_visual_effect_view() -> (r: Plan)
    ensures
        forall|rest: Script| #[trigger] r.script(rest) == visual_effect_script(rest),
{
    let mask = Autoresizing { width: true, height: true };
    proof {
        reveal_with_fuel(crate::plan::steps_script, 6);
    }
    Plan {
        steps: vec![
            Step::Do(Action::MakeVisualEffectView),
            Step::Do(Action::SetBlendingMode(BlendingMode::BehindWindow)),
            Step::Do(Action::SetMaterial(Material::UnderWindowBackground)),
            Step::Do(Action::SetVisualEffectState(NSVisualEffectState::Active)),
            Step::Do(Action::SetAutoresizing(ViewClass::VisualEffect, mask)),
        ],
    }
}

/// Makes a view as large as the container.
pub fn create_border_view() -> (r: Plan)
    ensures
        forall|rest: Script| #[trigger] r.script(rest) == create_script(rest),
{
    let mask = Autoresizing { width: true, height: true };
    let glass = Plan { steps: vec![Step::Do(Action::SetAutoresizing(ViewClass::Glass, mask))] };
    let visual = make_visual_effect_view();
    let r = Plan {
        steps: vec![
            Step::Do(Action::ReadContainerBounds),
            Step::Choose(Action::MakeGlassView, glass, visual),
        ],
    };
    assert forall|rest: Script| #[trigger] r.script(rest) == create_script(rest) by {
        reveal_with_fuel(crate::plan::steps_script, 4);
        assert(visual.script(rest) == visual_effect_script(rest));
    }
    r
}

} // verus!
