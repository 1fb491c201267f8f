//! Cutting the view down to a ring.
use crate::action::{Action, MaskPath, MaskRect, WindingRule};
use crate::length::Length;
use crate::plan::{Plan, Step};
use crate::script::Script;
use vstd::prelude::*;

verus! {

/// Masks the layer of the view with a ring: the layer from edge to edge, less what lies
/// within the border. Gives up, and goes on with `rest`, at the first object that is not
/// to be had.
pub open spec fn mask_script(border_width: Length, corner_radius: Length, rest: Script) -> Script {
    let install = Script::perform(
        Action::SetShapePath,
        Script::perform(Action::SetLayerMask, rest),
    );
    let close = Script::perform(
        Action::JoinPaths,
        Script::perform(
            Action::SetWindingRule(WindingRule::EvenOdd),
            Script::ask(Action::FetchShapePath, install, rest),
        ),
    );
    let inner = Script::ask(
        Action::MakePath(MaskPath::Inner),
        Script::perform(
            Action::AppendRoundedRect(
                MaskPath::Inner,
                MaskRect::spec_within(border_width),
                corner_radius.at_least_zero(),
            ),
            close,
        ),
        rest,
    );
    let outer = Script::ask(
        Action::MakePath(MaskPath::Outer),
        Script::perform(
            Action::AppendRoundedRect(MaskPath::Outer, MaskRect::spec_whole(), corner_radius),
            inner,
        ),
        rest,
    );
    let shape = Script::ask(
        Action::MakeShapeLayer,
        Script::perform(Action::SetShapeFrame, outer),
        rest,
    );
    Script::perform(
        Action::SetWantsLayer(true),
        Script::ask(Action::FetchLayer, Script::perform(Action::ReadLayerBounds, shape), rest),
    )
}

/// Masks the layer of the view with a ring.
pub fn create_border_mask(border_width: Length, corner_radius: Length) -> (r: Plan)
    ensures
        forall|rest: Script|
            #[trigger] r.script(rest) == mask_script(border_width, corner_radius, rest),
{
    let r = Plan {
        steps: vec![
            Step::Do(Action::SetWantsLayer(true)),
            Step::Need(Action::FetchLayer),
            Step::Do(Action::ReadLayerBounds),
            Step::Need(Action::MakeShapeLayer),
            Step::Do(Action::SetShapeFrame),
            Step::Need(Action::MakePath(MaskPath::Outer)),
            Step::Do(
                Action::AppendRoundedRect(MaskPath::Outer, MaskRect::whole(), corner_radius),
            ),
            Step::Need(Action::MakePath(MaskPath::Inner)),
            Step::Do(
                Action::AppendRoundedRect(
                    MaskPath::Inner,
                    MaskRect::within(border_width),
                    corner_radius.max_zero(),
                ),
            ),
            Step::Do(Action::JoinPaths),
            Step::Do(Action::SetWindingRule(WindingRule::EvenOdd)),
            Step::Need(Action::FetchShapePath),
            Step::Do(Action::SetShapePath),
            Step::Do(Action::SetLayerMask),
        ],
    };
    proof {
        reveal_with_fuel(crate::plan::steps_script, 15);
    }
    r
}

} // verus!
