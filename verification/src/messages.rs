//! Setting properties of a view that may not know them.
use crate::action::{Action, GlassProperty, Payload, Selector};
use crate::options::{NSGlassEffectVariant, NSVisualEffectState};
use crate::plan::{Plan, Step};
use crate::script::Script;
use vstd::prelude::*;

verus! {

/// Asks for each selector in turn whether the view answers to it, and sends the payload
/// to the first that it answers to.
pub open spec fn first_responder_script(
    selectors: Seq<Selector>,
    payload: Payload,
    rest: Script,
) -> Script
    decreases selectors.len(),
{
    if selectors.len() == 0 {
        rest
    } else {
        Script::ask(
            Action::RespondsTo(selectors[0]),
            Script::perform(Action::Send(selectors[0], payload), rest),
            first_responder_script(selectors.drop_first(), payload, rest),
        )
    }
}

/// Sets a property by the glass view's own setter; where there is no glass view, or it
/// does not take the property, turns to `fallback`.
pub open spec fn offer_script(property: GlassProperty, fallback: Script, rest: Script) -> Script {
    Script::ask(
        Action::IsGlassAvailable,
        Script::ask(
            Action::RetainGlass,
            Script::ask(Action::OfferToGlass(property), rest, fallback),
            fallback,
        ),
        fallback,
    )
}

/// Gives the view a look.
pub open spec fn style_script(style: NSGlassEffectVariant, rest: Script) -> Script {
    offer_script(
        GlassProperty::StyleVariant(style),
        first_responder_script(
            seq![Selector::SetStyle],
            Payload::Integer(style.number() as isize),
            rest,
        ),
        rest,
    )
}

/// Puts the view in a state.
pub open spec fn state_script(state: NSVisualEffectState, rest: Script) -> Script {
    offer_script(
        GlassProperty::State(state),
        first_responder_script(
            seq![Selector::PrivateSetState, Selector::SetState],
            Payload::Integer(state.number() as isize),
            rest,
        ),
        rest,
    )
}

/// Tells the view whether to let mouse events through.
pub open spec fn ignores_mouse_events_script(ignores: bool, rest: Script) -> Script {
    offer_script(
        GlassProperty::IgnoresMouseEvents(ignores),
        first_responder_script(
            seq![Selector::PrivateSetIgnoresMouseEvents, Selector::SetIgnoresMouseEvents],
            Payload::Boolean(ignores),
            rest,
        ),
        rest,
    )
}

fn send_optional(selectors: &Vec<Selector>, payload: Payload) -> (r: Plan)
    ensures
        forall|rest: Script|
            #[trigger] r.script(rest) == first_responder_script(selectors@, payload, rest),
{
    let mut plan = Plan::empty();
    let mut i: usize = selectors.len();
    while i > 0
        invariant
            i <= selectors.len(),
            forall|rest: Script|
                #[trigger] plan.script(rest) == first_responder_script(
                    selectors@.skip(i as int),
                    payload,
                    rest,
                ),
        decreases i,
    {
        i = i - 1;
        let ghost others = plan;
        let send = Plan { steps: vec![Step::Do(Action::Send(selectors[i], payload))] };
        plan = Plan { steps: vec![Step::Choose(Action::RespondsTo(selectors[i]), send, plan)] };
        assert forall|rest: Script|
            #[trigger] plan.script(rest) == first_responder_script(
                selectors@.skip(i as int),
                payload,
                rest,
            ) by {
            reveal_with_fuel(crate::plan::steps_script, 3);
            assert(others.script(rest) == first_responder_script(
                selectors@.skip(i + 1),
                payload,
                rest,
            ));
            assert(selectors@.skip(i as int).drop_first() =~= selectors@.skip(i + 1));
        }
    }
    assert(selectors@.skip(0) =~= selectors@);
    plan
}

/// Sends the integer to the first of the selectors that the view answers to, if any.
pub fn send_optional_i64(selectors: &Vec<Selector>, value: i64) -> (r: Plan)
    ensures
        forall|rest: Script|
            #[trigger] r.script(rest) == first_responder_script(
                selectors@,
                Payload::Integer(value as isize),
                rest,
            ),
{
    send_optional(
        selectors,
        Payload::Integer(
            #[verifier::truncate]
            (value as isize),
        ),
    )
}

/// Sends the truth value to the first of the selectors that the view answers to, if any.
pub fn send_optional_bool(selectors: &Vec<Selector>, value: bool) -> (r: Plan)
    ensures
        forall|rest: Script|
            #[trigger] r.script(rest) == first_responder_script(
                selectors@,
                Payload::Boolean(value),
                rest,
            ),
{
    send_optional(selectors, Payload::Boolean(value))
}

fn offer_to_glass(property: GlassProperty, fallback: Plan) -> (r: Plan)
    ensures
        forall|rest: Script|
            #[trigger] r.script(rest) == offer_script(property, fallback.script(rest), rest),
{
    let actions = vec![
        Action::IsGlassAvailable,
        Action::RetainGlass,
        Action::OfferToGlass(property),
    ];
    proof {
        reveal_with_fuel(crate::plan::steps_script, 2);
        reveal_with_fuel(crate::plan::attempt_script, 4);
    }
    Plan { steps: vec![Step::Attempt(actions, fallback)] }
}

/// Gives the view the look.
pub fn set_border_glass_style(style: NSGlassEffectVariant) -> (r: Plan)
    ensures
        forall|rest: Script| #[trigger] r.script(rest) == style_script(style, rest),
{
    let selectors = vec![Selector::SetStyle];
    assert(selectors@ =~= seq![Selector::SetStyle]);
    offer_to_glass(
        GlassProperty::StyleVariant(style),
        send_optional_i64(&selectors, style.as_i64()),
    )
}

/// Puts the view in the state.
pub fn set_border_glass_state(state: NSVisualEffectState) -> (r: Plan)
    ensures
        forall|rest: Script| #[trigger] r.script(rest) == state_script(state, rest),
{
    let selectors = vec![Selector::PrivateSetState, Selector::SetState];
    assert(selectors@ =~= seq![Selector::PrivateSetState, Selector::SetState]);
    offer_to_glass(GlassProperty::State(state), send_optional_i64(&selectors, state.as_i64()))
}

/// Tells the view whether to let mouse events through.
pub fn set_border_view_ignores_mouse_events(ignores: bool) -> (r: Plan)
    ensures
        forall|rest: Script|
            #[trigger] r.script(rest) == ignores_mouse_events_script(ignores, rest),
{
    let selectors = vec![Selector::PrivateSetIgnoresMouseEvents, Selector::SetIgnoresMouseEvents];
    assert(selectors@ =~= seq![
        Selector::PrivateSetIgnoresMouseEvents,
        Selector::SetIgnoresMouseEvents,
    ]);
    offer_to_glass(
        GlassProperty::IgnoresMouseEvents(ignores),
        send_optional_bool(&selectors, ignores),
    )
}

} // verus!
