//! Tint, state and corners.
use crate::action::{Action, Fraction, NSColorComponents, Selector};
use crate::length::Length;
use crate::options::{BorderGlassOptions, Color, NSVisualEffectState};
use crate::plan::{Plan, Step};
use crate::script::Script;
use vstd::prelude::*;

verus! {

/// A component of a colour as a share of the greatest value it can have.
pub open spec fn share(component: u8) -> Fraction {
    Fraction { numerator: component, denominator: 255 }
}

/// The components of a colour, as shares.
pub open spec fn components(color: Color) -> NSColorComponents {
    NSColorComponents {
        red: share(color.0),
        green: share(color.1),
        blue: share(color.2),
        alpha: share(color.3),
    }
}

/// Fills the background of the layer with the colour.
pub open spec fn fill_background_script(rest: Script) -> Script {
    Script::perform(
        Action::SetWantsLayer(true),
        Script::ask(
            Action::FetchLayer,
            Script::perform(
                Action::MakeLayerColor,
                Script::perform(Action::SetLayerBackground, rest),
            ),
            rest,
        ),
    )
}

/// Tints the view; where it has no tint, fills the background of its layer.
pub open spec fn tint_script(color: Color, rest: Script) -> Script {
    Script::perform(
        Action::MakeColor(components(color)),
        Script::ask(
            Action::RespondsTo(Selector::SetTintColor),
            Script::perform(Action::SendColor(Selector::SetTintColor), rest),
            fill_background_script(rest),
        ),
    )
}

/// Gives the view its tint, where one is asked for, and its state.
pub open spec fn appearance_script(options: BorderGlassOptions, rest: Script) -> Script {
    let put_in_state = crate::messages::state_script(options.effective_state(), rest);
    match options.tint {
        Some(color) => tint_script(color, put_in_state),
        None => put_in_state,
    }
}

/// Rounds the corners of the layer, without clipping to them.
pub open spec fn corner_radius_script(radius: Length, rest: Script) -> Script {
    Script::perform(
        Action::SetWantsLayer(true),
        Script::ask(
            Action::FetchLayer,
            Script::perform(
                Action::SetLayerCornerRadius(radius),
                Script::perform(Action::SetLayerMasksToBounds(false), rest),
            ),
            rest,
        ),
    )
}

/// The components of a colour, each from zero to one.
pub fn color_to_nscolor(color: Color) -> (r: NSColorComponents)
    ensures
        r == components(color),
{
    NSColorComponents {
        red: Fraction { numerator: color.0, denominator: 255 },
        green: Fraction { numerator: color.1, denominator: 255 },
        blue: Fraction { numerator: color.2, denominator: 255 },
        alpha: Fraction { numerator: color.3, denominator: 255 },
    }
}

fn fill_background() -> (r: Plan)
    ensures
        forall|rest: Script| #[trigger] r.script(rest) == fill_background_script(rest),
{
    proof {
        reveal_with_fuel(crate::plan::steps_script, 5);
    }
    Plan {
        steps: vec![
            Step::Do(Action::SetWantsLayer(true)),
            Step::Need(Action::FetchLayer),
            Step::Do(Action::MakeLayerColor),
            Step::Do(Action::SetLayerBackground),
        ],
    }
}

fn tint(color: Color) -> (r: Plan)
    ensures
        forall|rest: Script| #[trigger] r.script(rest) == tint_script(color, rest),
{
    let send = Plan { steps: vec![Step::Do(Action::SendColor(Selector::SetTintColor))] };
    let fill = fill_background();
    let r = Plan {
        steps: vec![
            Step::Do(Action::MakeColor(color_to_nscolor(color))),
            Step::Choose(Action::RespondsTo(Selector::SetTintColor), send, fill),
        ],
    };
    assert forall|rest: Script| #[trigger] r.script(rest) == tint_script(color, rest) by {
        reveal_with_fuel(crate::plan::steps_script, 4);
        assert(fill.script(rest) == fill_background_script(rest));
    }
    r
}

/// Gives the view its tint, where one is asked for, and its state.
pub fn configure_border_glass_appearance(options: &BorderGlassOptions) -> (r: Plan)
    ensures
        forall|rest: Script| #[trigger] r.script(rest) == appearance_script(*options, rest),
{
    let tinted = match options.tint {
        Some(color) => tint(color),
        None => Plan::empty(),
    };
    let state = match options.state {
        Some(state) => state,
        None => NSVisualEffectState::FollowsWindowActiveState,
    };
    let stated = crate::messages::set_border_glass_state(state);
    let r = Plan { steps: vec![Step::Call(tinted), Step::Call(stated)] };
    assert forall|rest: Script| #[trigger]
        r.script(rest) == appearance_script(*options, rest) by {
        reveal_with_fuel(crate::plan::steps_script, 3);
        assert(r.script(rest) == tinted.script(stated.script(rest)));
    }
    r
}

/// Rounds the corners of the layer.
pub fn apply_corner_radius_layer(radius: Length) -> (r: Plan)
    ensures
        forall|rest: Script| #[trigger] r.script(rest) == corner_radius_script(radius, rest),
{
    proof {
        reveal_with_fuel(crate::plan::steps_script, 5);
    }
    Plan {
        steps: vec![
            Step::Do(Action::SetWantsLayer(true)),
            Step::Need(Action::FetchLayer),
            Step::Do(Action::SetLayerCornerRadius(radius)),
            Step::Do(Action::SetLayerMasksToBounds(false)),
        ],
    }
}

} // verus!
