//! What the parts of the work do, action by action.
//!
//! A trace lists the actions of a script. Its first action reports `replies(at)`, the next
//! `replies(at + 1)`, and so on.
use crate::action::{
    Action, AssociationPolicy, Autoresizing, BlendingMode, Fraction, GlassProperty, MaskPath,
    MaskRect, Material, NSColorComponents, Payload, Selector, ViewClass, WindingRule,
};
use crate::length::Length;
use crate::options::{Color, NSGlassEffectVariant, NSVisualEffectState};
use crate::plan::{Plan, Step};
use crate::script::{Outcome, Script};
use vstd::prelude::*;

verus! {

/// Whether the glass takes a property that it is offered from index `n` on.
pub open spec fn taken(replies: spec_fn(int) -> bool, n: int) -> bool {
    replies(n) && replies(n + 1) && replies(n + 2)
}

/// Where an offer to the glass that starts at index `n` is over.
pub open spec fn offer_end(replies: spec_fn(int) -> bool, n: int) -> int {
    if !replies(n) {
        n + 1
    } else if !replies(n + 1) {
        n + 2
    } else {
        n + 3
    }
}

/// Where setting a property that starts at index `n` is over, if one selector stands in for
/// the glass.
pub open spec fn property_end_of_one(replies: spec_fn(int) -> bool, n: int) -> int {
    let m = offer_end(replies, n);
    if taken(replies, n) {
        m
    } else if replies(m) {
        m + 2
    } else {
        m + 1
    }
}

/// Where setting a property that starts at index `n` is over, if two selectors stand in for
/// the glass.
pub open spec fn property_end_of_two(replies: spec_fn(int) -> bool, n: int) -> int {
    let m = offer_end(replies, n);
    if taken(replies, n) {
        m
    } else if replies(m) {
        m + 2
    } else if replies(m + 1) {
        m + 3
    } else {
        m + 2
    }
}

/// Where tinting that starts at index `n` is over.
pub open spec fn tint_end(replies: spec_fn(int) -> bool, n: int) -> int {
    if replies(n + 1) {
        n + 3
    } else if replies(n + 3) {
        n + 6
    } else {
        n + 4
    }
}

/// Where masking that starts at index `n` is over.
pub open spec fn mask_end(replies: spec_fn(int) -> bool, n: int) -> int {
    if !replies(n + 1) {
        n + 2
    } else if !replies(n + 3) {
        n + 4
    } else if !replies(n + 5) {
        n + 6
    } else if !replies(n + 7) {
        n + 8
    } else if !replies(n + 11) {
        n + 12
    } else {
        n + 14
    }
}

/// The first action comes first, and its report decides what follows.
pub proof fn law_trace_follows_reports(script: Script, replies: spec_fn(int) -> bool, at: int)
    ensures
        match script {
            Script::End(_) => script.trace(replies, at).len() == 0,
            Script::Next(action, yes, no) => {
                let t = script.trace(replies, at);
                &&& t.len() > 0
                &&& t[0] == action
                &&& script.head() == Some(action)
                &&& t.skip(1) == script.after(replies(at)).trace(replies, at + 1)
                &&& script.after(true) == *yes
                &&& script.after(false) == *no
            },
        },
{
    if script is Next {
        let rest = script.after(replies(at)).trace(replies, at + 1);
        assert(script.trace(replies, at).skip(1) =~= rest);
    }
}

/// A plan starts with its first step. An action is performed; one that is needed leaves the
/// plan if it reports false; a choice goes by its report; a plan within is carried out
/// first; an end is the end.
pub proof fn law_plan_starts_with_first_step(plan: Plan, rest: Script)
    requires
        plan.steps@.len() > 0,
    ensures
        ({
            let tail = crate::plan::steps_script(plan.steps@, 1, rest);
            let s = plan.script(rest);
            match plan.steps@[0] {
                Step::Do(a) => s.head() == Some(a) && s.after(true) == tail && s.after(false)
                    == tail,
                Step::Need(a) => s.head() == Some(a) && s.after(true) == tail && s.after(false)
                    == rest,
                Step::Choose(a, yes, no) => s.head() == Some(a) && s.after(true) == yes.script(
                    tail,
                ) && s.after(false) == no.script(tail),
                Step::Attempt(actions, otherwise) => s == crate::plan::attempt_script(
                    actions@,
                    tail,
                    otherwise.script(tail),
                ),
                Step::Call(inner) => s == inner.script(tail),
                Step::Finish(outcome) => s.outcome() == Some(outcome),
            }
        }),
{
}

/// An attempt goes through its actions and then on, if each of them reports true.
pub proof fn law_attempt_succeeds(
    actions: Seq<Action>,
    success: Script,
    failure: Script,
    replies: spec_fn(int) -> bool,
    at: int,
)
    requires
        forall|j: int| 0 <= j < actions.len() ==> #[trigger] replies(at + j),
    ensures
        crate::plan::attempt_script(actions, success, failure).trace(replies, at) == actions
            + success.trace(replies, at + actions.len()),
    decreases actions.len(),
{
    let script = crate::plan::attempt_script(actions, success, failure);
    if actions.len() > 0 {
        let others = actions.drop_first();
        assert(replies(at + 0));
        assert forall|j: int| 0 <= j < others.len() implies #[trigger] replies((at + 1) + j) by {
            assert(replies(at + (j + 1)));
        }
        law_attempt_succeeds(others, success, failure, replies, at + 1);
        assert(actions =~= seq![actions[0]] + others);
    }
    assert(script.trace(replies, at) =~= actions + success.trace(replies, at + actions.len()));
}

/// An attempt stops after the first of its actions that reports false, and takes the other
/// way.
pub proof fn law_attempt_fails(
    actions: Seq<Action>,
    success: Script,
    failure: Script,
    replies: spec_fn(int) -> bool,
    at: int,
    k: int,
)
    requires
        0 <= k < actions.len(),
        forall|j: int| 0 <= j < k ==> #[trigger] replies(at + j),
        !replies(at + k),
    ensures
        crate::plan::attempt_script(actions, success, failure).trace(replies, at) == actions.take(
            k + 1,
        ) + failure.trace(replies, at + k + 1),
    decreases k,
{
    let script = crate::plan::attempt_script(actions, success, failure);
    if k == 0 {
        assert(!replies(at));
    } else {
        let others = actions.drop_first();
        assert(replies(at + 0));
        assert forall|j: int| 0 <= j < k - 1 implies #[trigger] replies((at + 1) + j) by {
            assert(replies(at + (j + 1)));
        }
        assert(!replies((at + 1) + (k - 1)));
        law_attempt_fails(others, success, failure, replies, at + 1, k - 1);
        assert(actions.take(k + 1) =~= seq![actions[0]] + others.take(k));
    }
    assert(script.trace(replies, at) =~= actions.take(k + 1) + failure.trace(
        replies,
        at + k + 1,
    ));
}

/// Taking the border down asks for it first. One that is found is taken hold of, detached if
/// that succeeds, and forgotten in any case.
pub proof fn law_remove_trace(
    removed: Script,
    absent: Script,
    replies: spec_fn(int) -> bool,
    at: int,
)
    ensures
        ({
            let t = crate::removal::remove_script(removed, absent).trace(replies, at);
            let forget = Action::ForgetBorder(AssociationPolicy::Retain);
            if !replies(at) {
                t == seq![Action::FindBorder] + absent.trace(replies, at + 1)
            } else if !replies(at + 1) {
                t == seq![Action::FindBorder, Action::RetainBorder, forget] + removed.trace(
                    replies,
                    at + 3,
                )
            } else {
                t == seq![
                    Action::FindBorder,
                    Action::RetainBorder,
                    Action::DetachBorder,
                    forget,
                ] + removed.trace(replies, at + 4)
            }
        }),
{
    reveal_with_fuel(Script::trace, 5);
    let t = crate::removal::remove_script(removed, absent).trace(replies, at);
    let forget = Action::ForgetBorder(AssociationPolicy::Retain);
    if !replies(at) {
        assert(t =~= seq![Action::FindBorder] + absent.trace(replies, at + 1));
    } else if !replies(at + 1) {
        assert(t =~= seq![Action::FindBorder, Action::RetainBorder, forget] + removed.trace(
            replies,
            at + 3,
        ));
    } else {
        assert(t =~= seq![
            Action::FindBorder,
            Action::RetainBorder,
            Action::DetachBorder,
            forget,
        ] + removed.trace(replies, at + 4));
    }
}

/// The view is made of glass where that succeeds. Otherwise it is a visual effect view, always
/// active, of the material under windows, blended with what lies behind the window. Both
/// sides of either follow the container's.
pub proof fn law_create_trace(rest: Script, replies: spec_fn(int) -> bool, at: int)
    ensures
        ({
            let t = crate::creation::create_script(rest).trace(replies, at);
            let follow = Autoresizing { width: true, height: true };
            if replies(at + 1) {
                t == seq![
                    Action::ReadContainerBounds,
                    Action::MakeGlassView,
                    Action::SetAutoresizing(ViewClass::Glass, follow),
                ] + rest.trace(replies, at + 3)
            } else {
                t == seq![
                    Action::ReadContainerBounds,
                    Action::MakeGlassView,
                    Action::MakeVisualEffectView,
                    Action::SetBlendingMode(BlendingMode::BehindWindow),
                    Action::SetMaterial(Material::UnderWindowBackground),
                    Action::SetVisualEffectState(NSVisualEffectState::Active),
                    Action::SetAutoresizing(ViewClass::VisualEffect, follow),
                ] + rest.trace(replies, at + 7)
            }
        }),
{
    reveal_with_fuel(Script::trace, 8);
    let t = crate::creation::create_script(rest).trace(replies, at);
    let follow = Autoresizing { width: true, height: true };
    if replies(at + 1) {
        assert(t =~= seq![
            Action::ReadContainerBounds,
            Action::MakeGlassView,
            Action::SetAutoresizing(ViewClass::Glass, follow),
        ] + rest.trace(replies, at + 3));
    } else {
        assert(t =~= seq![
            Action::ReadContainerBounds,
            Action::MakeGlassView,
            Action::MakeVisualEffectView,
            Action::SetBlendingMode(BlendingMode::BehindWindow),
            Action::SetMaterial(Material::UnderWindowBackground),
            Action::SetVisualEffectState(NSVisualEffectState::Active),
            Action::SetAutoresizing(ViewClass::VisualEffect, follow),
        ] + rest.trace(replies, at + 7));
    }
}

/// A property is offered to the glass, once it is there and held; only if one of the three
/// fails does the fallback come.
pub proof fn law_offer_trace(
    property: GlassProperty,
    fallback: Script,
    rest: Script,
    replies: spec_fn(int) -> bool,
    at: int,
)
    ensures
        ({
            let t = crate::messages::offer_script(property, fallback, rest).trace(replies, at);
            let m = offer_end(replies, at);
            t == seq![
                Action::IsGlassAvailable,
                Action::RetainGlass,
                Action::OfferToGlass(property),
            ].take(m - at) + if taken(replies, at) {
                rest.trace(replies, m)
            } else {
                fallback.trace(replies, m)
            }
        }),
{
    reveal_with_fuel(Script::trace, 4);
    let t = crate::messages::offer_script(property, fallback, rest).trace(replies, at);
    let m = offer_end(replies, at);
    let offer = seq![
        Action::IsGlassAvailable,
        Action::RetainGlass,
        Action::OfferToGlass(property),
    ];
    if taken(replies, at) {
        assert(t =~= offer.take(3) + rest.trace(replies, m));
    } else {
        assert(t =~= offer.take(m - at) + fallback.trace(replies, m));
    }
}

/// The look that is asked for is the look that the glass is offered, and, where the glass
/// does not take it, the number that is sent as the style.
pub proof fn law_style_trace(
    style: NSGlassEffectVariant,
    rest: Script,
    replies: spec_fn(int) -> bool,
    at: int,
)
    ensures
        ({
            let t = crate::messages::style_script(style, rest).trace(replies, at);
            let number: i64 = match style {
                NSGlassEffectVariant::Regular => 0,
                NSGlassEffectVariant::Clear => 1,
                NSGlassEffectVariant::Other(n) => n,
            };
            let m = offer_end(replies, at);
            let offer = seq![
                Action::IsGlassAvailable,
                Action::RetainGlass,
                Action::OfferToGlass(GlassProperty::StyleVariant(style)),
            ];
            let ask = Action::RespondsTo(Selector::SetStyle);
            let send = Action::Send(Selector::SetStyle, Payload::Integer(number as isize));
            let messages = if taken(replies, at) {
                seq![]
            } else if replies(m) {
                seq![ask, send]
            } else {
                seq![ask]
            };
            t == offer.take(m - at) + messages + rest.trace(
                replies,
                property_end_of_one(replies, at),
            )
        }),
{
    let payload = Payload::Integer(style.number() as isize);
    let selectors = seq![Selector::SetStyle];
    let fallback = crate::messages::first_responder_script(selectors, payload, rest);
    let m = offer_end(replies, at);
    law_offer_trace(GlassProperty::StyleVariant(style), fallback, rest, replies, at);
    let t = crate::messages::style_script(style, rest).trace(replies, at);
    let offer = seq![
        Action::IsGlassAvailable,
        Action::RetainGlass,
        Action::OfferToGlass(GlassProperty::StyleVariant(style)),
    ].take(m - at);
    let ask = Action::RespondsTo(Selector::SetStyle);
    let send = Action::Send(Selector::SetStyle, payload);
    reveal_with_fuel(Script::trace, 3);
    reveal_with_fuel(crate::messages::first_responder_script, 2);
    if taken(replies, at) {
        assert(t =~= offer + seq![] + rest.trace(replies, m));
    } else if replies(m) {
        assert(t =~= offer + seq![ask, send] + rest.trace(replies, m + 2));
    } else {
        assert(t =~= offer + seq![ask] + rest.trace(replies, m + 1));
    }
}

proof fn lemma_two_selectors_trace(
    first: Selector,
    second: Selector,
    payload: Payload,
    rest: Script,
    replies: spec_fn(int) -> bool,
    m: int,
)
    ensures
        ({
            let t = crate::messages::first_responder_script(
                seq![first, second],
                payload,
                rest,
            ).trace(replies, m);
            if replies(m) {
                t == seq![Action::RespondsTo(first), Action::Send(first, payload)] + rest.trace(
                    replies,
                    m + 2,
                )
            } else if replies(m + 1) {
                t == seq![
                    Action::RespondsTo(first),
                    Action::RespondsTo(second),
                    Action::Send(second, payload),
                ] + rest.trace(replies, m + 3)
            } else {
                t == seq![Action::RespondsTo(first), Action::RespondsTo(second)] + rest.trace(
                    replies,
                    m + 2,
                )
            }
        }),
{
    let selectors = seq![first, second];
    assert(selectors.drop_first() =~= seq![second]);
    let t = crate::messages::first_responder_script(selectors, payload, rest).trace(replies, m);
    reveal_with_fuel(Script::trace, 4);
    reveal_with_fuel(crate::messages::first_responder_script, 3);
    if replies(m) {
        assert(t =~= seq![Action::RespondsTo(first), Action::Send(first, payload)] + rest.trace(
            replies,
            m + 2,
        ));
    } else if replies(m + 1) {
        assert(t =~= seq![
            Action::RespondsTo(first),
            Action::RespondsTo(second),
            Action::Send(second, payload),
        ] + rest.trace(replies, m + 3));
    } else {
        assert(t =~= seq![Action::RespondsTo(first), Action::RespondsTo(second)] + rest.trace(
            replies,
            m + 2,
        ));
    }
}

/// The state that is asked for is the state that the glass is offered, and, where the glass
/// does not take it, the number that is sent, by the private selector if the view answers to
/// that.
pub proof fn law_state_trace(
    state: NSVisualEffectState,
    rest: Script,
    replies: spec_fn(int) -> bool,
    at: int,
)
    ensures
        ({
            let t = crate::messages::state_script(state, rest).trace(replies, at);
            let number: i64 = match state {
                NSVisualEffectState::FollowsWindowActiveState => 0,
                NSVisualEffectState::Active => 1,
                NSVisualEffectState::Inactive => 2,
            };
            let payload = Payload::Integer(number as isize);
            let m = offer_end(replies, at);
            let offer = seq![
                Action::IsGlassAvailable,
                Action::RetainGlass,
                Action::OfferToGlass(GlassProperty::State(state)),
            ];
            let ask = Action::RespondsTo(Selector::PrivateSetState);
            let ask_again = Action::RespondsTo(Selector::SetState);
            let messages = if taken(replies, at) {
                seq![]
            } else if replies(m) {
                seq![ask, Action::Send(Selector::PrivateSetState, payload)]
            } else if replies(m + 1) {
                seq![ask, ask_again, Action::Send(Selector::SetState, payload)]
            } else {
                seq![ask, ask_again]
            };
            t == offer.take(m - at) + messages + rest.trace(
                replies,
                property_end_of_two(replies, at),
            )
        }),
{
    let payload = Payload::Integer(state.number() as isize);
    let selectors = seq![Selector::PrivateSetState, Selector::SetState];
    let fallback = crate::messages::first_responder_script(selectors, payload, rest);
    let m = offer_end(replies, at);
    law_offer_trace(GlassProperty::State(state), fallback, rest, replies, at);
    lemma_two_selectors_trace(
        Selector::PrivateSetState,
        Selector::SetState,
        payload,
        rest,
        replies,
        m,
    );
    let t = crate::messages::state_script(state, rest).trace(replies, at);
    let offer = seq![
        Action::IsGlassAvailable,
        Action::RetainGlass,
        Action::OfferToGlass(GlassProperty::State(state)),
    ].take(m - at);
    let ask = Action::RespondsTo(Selector::PrivateSetState);
    let ask_again = Action::RespondsTo(Selector::SetState);
    if taken(replies, at) {
        assert(t =~= offer + seq![] + rest.trace(replies, m));
    } else if replies(m) {
        assert(t =~= offer + seq![ask, Action::Send(Selector::PrivateSetState, payload)]
            + rest.trace(replies, m + 2));
    } else if replies(m + 1) {
        assert(t =~= offer + seq![ask, ask_again, Action::Send(Selector::SetState, payload)]
            + rest.trace(replies, m + 3));
    } else {
        assert(t =~= offer + seq![ask, ask_again] + rest.trace(replies, m + 2));
    }
}

/// Whether to let mouse events through goes to the glass as it is asked for, and, where the
/// glass does not take it, into a message, by the private selector if the view answers to
/// that.
pub proof fn law_ignores_mouse_events_trace(
    ignores: bool,
    rest: Script,
    replies: spec_fn(int) -> bool,
    at: int,
)
    ensures
        ({
            let t = crate::messages::ignores_mouse_events_script(ignores, rest).trace(replies, at);
            let payload = Payload::Boolean(ignores);
            let m = offer_end(replies, at);
            let offer = seq![
                Action::IsGlassAvailable,
                Action::RetainGlass,
                Action::OfferToGlass(GlassProperty::IgnoresMouseEvents(ignores)),
            ];
            let ask = Action::RespondsTo(Selector::PrivateSetIgnoresMouseEvents);
            let ask_again = Action::RespondsTo(Selector::SetIgnoresMouseEvents);
            let messages = if taken(replies, at) {
                seq![]
            } else if replies(m) {
                seq![ask, Action::Send(Selector::PrivateSetIgnoresMouseEvents, payload)]
            } else if replies(m + 1) {
                seq![ask, ask_again, Action::Send(Selector::SetIgnoresMouseEvents, payload)]
            } else {
                seq![ask, ask_again]
            };
            t == offer.take(m - at) + messages + rest.trace(
                replies,
                property_end_of_two(replies, at),
            )
        }),
{
    let payload = Payload::Boolean(ignores);
    let selectors = seq![Selector::PrivateSetIgnoresMouseEvents, Selector::SetIgnoresMouseEvents];
    let fallback = crate::messages::first_responder_script(selectors, payload, rest);
    let m = offer_end(replies, at);
    law_offer_trace(GlassProperty::IgnoresMouseEvents(ignores), fallback, rest, replies, at);
    lemma_two_selectors_trace(
        Selector::PrivateSetIgnoresMouseEvents,
        Selector::SetIgnoresMouseEvents,
        payload,
        rest,
        replies,
        m,
    );
    let t = crate::messages::ignores_mouse_events_script(ignores, rest).trace(replies, at);
    let offer = seq![
        Action::IsGlassAvailable,
        Action::RetainGlass,
        Action::OfferToGlass(GlassProperty::IgnoresMouseEvents(ignores)),
    ].take(m - at);
    let ask = Action::RespondsTo(Selector::PrivateSetIgnoresMouseEvents);
    let ask_again = Action::RespondsTo(Selector::SetIgnoresMouseEvents);
    if taken(replies, at) {
        assert(t =~= offer + seq![] + rest.trace(replies, m));
    } else if replies(m) {
        assert(t =~= offer + seq![
            ask,
            Action::Send(Selector::PrivateSetIgnoresMouseEvents, payload),
        ] + rest.trace(replies, m + 2));
    } else if replies(m + 1) {
        assert(t =~= offer + seq![
            ask,
            ask_again,
            Action::Send(Selector::SetIgnoresMouseEvents, payload),
        ] + rest.trace(replies, m + 3));
    } else {
        assert(t =~= offer + seq![ask, ask_again] + rest.trace(replies, m + 2));
    }
}

/// Every colour is made, component for component out of 255, and sent as the tint to a view
/// that takes one; it fills the background of the layer of one that does not.
pub proof fn law_tint_trace(color: Color, rest: Script, replies: spec_fn(int) -> bool, at: int)
    ensures
        ({
            let t = crate::appearance::tint_script(color, rest).trace(replies, at);
            let made = NSColorComponents {
                red: Fraction { numerator: color.0, denominator: 255 },
                green: Fraction { numerator: color.1, denominator: 255 },
                blue: Fraction { numerator: color.2, denominator: 255 },
                alpha: Fraction { numerator: color.3, denominator: 255 },
            };
            let start = seq![
                Action::MakeColor(made),
                Action::RespondsTo(Selector::SetTintColor),
            ];
            let tinted = if replies(at + 1) {
                seq![Action::SendColor(Selector::SetTintColor)]
            } else if replies(at + 3) {
                seq![
                    Action::SetWantsLayer(true),
                    Action::FetchLayer,
                    Action::MakeLayerColor,
                    Action::SetLayerBackground,
                ]
            } else {
                seq![Action::SetWantsLayer(true), Action::FetchLayer]
            };
            t == start + tinted + rest.trace(replies, tint_end(replies, at))
        }),
{
    let t = crate::appearance::tint_script(color, rest).trace(replies, at);
    let start = seq![
        Action::MakeColor(crate::appearance::components(color)),
        Action::RespondsTo(Selector::SetTintColor),
    ];
    reveal_with_fuel(Script::trace, 7);
    if replies(at + 1) {
        assert(t =~= start + seq![Action::SendColor(Selector::SetTintColor)] + rest.trace(
            replies,
            at + 3,
        ));
    } else if replies(at + 3) {
        assert(t =~= start + seq![
            Action::SetWantsLayer(true),
            Action::FetchLayer,
            Action::MakeLayerColor,
            Action::SetLayerBackground,
        ] + rest.trace(replies, at + 6));
    } else {
        assert(t =~= start + seq![Action::SetWantsLayer(true), Action::FetchLayer] + rest.trace(
            replies,
            at + 4,
        ));
    }
}

/// The corners of a layer that is there get the radius that is asked for, and nothing is
/// clipped to them.
pub proof fn law_corner_radius_trace(
    radius: Length,
    rest: Script,
    replies: spec_fn(int) -> bool,
    at: int,
)
    ensures
        ({
            let t = crate::appearance::corner_radius_script(radius, rest).trace(replies, at);
            let start = seq![Action::SetWantsLayer(true), Action::FetchLayer];
            if replies(at + 1) {
                t == start + seq![
                    Action::SetLayerCornerRadius(radius),
                    Action::SetLayerMasksToBounds(false),
                ] + rest.trace(replies, at + 4)
            } else {
                t == start + rest.trace(replies, at + 2)
            }
        }),
{
    reveal_with_fuel(Script::trace, 5);
    let t = crate::appearance::corner_radius_script(radius, rest).trace(replies, at);
    let start = seq![Action::SetWantsLayer(true), Action::FetchLayer];
    if replies(at + 1) {
        assert(t =~= start + seq![
            Action::SetLayerCornerRadius(radius),
            Action::SetLayerMasksToBounds(false),
        ] + rest.trace(replies, at + 4));
    } else {
        assert(t =~= start + rest.trace(replies, at + 2));
    }
}

/// The mask is drawn from the layer's own rectangle and from one that keeps the border width
/// that is asked for on every side, both with corners of the radius that is asked for, the
/// inner one's never below zero. It is filled by the even-odd rule. The first of its five
/// objects that is not to be had ends it.
#[verifier::rlimit(30)]
pub proof fn law_mask_trace(
    border_width: Length,
    corner_radius: Length,
    rest: Script,
    replies: spec_fn(int) -> bool,
    at: int,
)
    ensures
        ({
            let t = crate::mask::mask_script(border_width, corner_radius, rest).trace(replies, at);
            let zero = Length { bits: 0 };
            let inner_radius = if 0 < corner_radius.bits <= 0x7ff0_0000_0000_0000 {
                corner_radius
            } else {
                zero
            };
            let m = mask_end(replies, at);
            t == seq![
                Action::SetWantsLayer(true),
                Action::FetchLayer,
                Action::ReadLayerBounds,
                Action::MakeShapeLayer,
                Action::SetShapeFrame,
                Action::MakePath(MaskPath::Outer),
                Action::AppendRoundedRect(
                    MaskPath::Outer,
                    (MaskRect { x: zero, y: zero, inset: zero, insets: 0 }),
                    corner_radius,
                ),
                Action::MakePath(MaskPath::Inner),
                Action::AppendRoundedRect(
                    MaskPath::Inner,
                    (MaskRect { x: border_width, y: border_width, inset: border_width, insets: 2 }),
                    inner_radius,
                ),
                Action::JoinPaths,
                Action::SetWindingRule(WindingRule::EvenOdd),
                Action::FetchShapePath,
                Action::SetShapePath,
                Action::SetLayerMask,
            ].take(m - at) + rest.trace(replies, m)
        }),
{
    crate::values::law_cut_off_at_zero(corner_radius);
    let t = crate::mask::mask_script(border_width, corner_radius, rest).trace(replies, at);
    let m = mask_end(replies, at);
    let whole = crate::laws::masking(border_width, corner_radius);
    let inner = mask_inner(border_width, corner_radius, rest);
    let outer = mask_outer(border_width, corner_radius, rest);
    if replies(at + 1) && replies(at + 3) {
        assert(t =~= whole.take(5) + outer.trace(replies, at + 5)) by {
            reveal_with_fuel(Script::trace, 6);
        }
        lemma_mask_outer_trace(border_width, corner_radius, rest, replies, at + 5);
        if replies(at + 5) {
            assert(t =~= whole.take(7) + inner.trace(replies, at + 7));
            lemma_mask_inner_trace(border_width, corner_radius, rest, replies, at + 7);
            if replies(at + 7) {
                assert(t =~= whole.take(9) + mask_close(rest).trace(replies, at + 9));
                lemma_mask_close_trace(rest, replies, at + 9);
            }
        }
    } else {
        reveal_with_fuel(Script::trace, 5);
    }
    assert(t =~= whole.take(m - at) + rest.trace(replies, m));
}

spec fn mask_close(rest: Script) -> Script {
    Script::perform(
        Action::JoinPaths,
        Script::perform(
            Action::SetWindingRule(WindingRule::EvenOdd),
            Script::ask(
                Action::FetchShapePath,
                Script::perform(
                    Action::SetShapePath,
                    Script::perform(Action::SetLayerMask, rest),
                ),
                rest,
            ),
        ),
    )
}

proof fn lemma_mask_close_trace(rest: Script, replies: spec_fn(int) -> bool, at: int)
    ensures
        mask_close(rest).trace(replies, at) == if replies(at + 2) {
            seq![
                Action::JoinPaths,
                Action::SetWindingRule(WindingRule::EvenOdd),
                Action::FetchShapePath,
                Action::SetShapePath,
                Action::SetLayerMask,
            ] + rest.trace(replies, at + 5)
        } else {
            seq![
                Action::JoinPaths,
                Action::SetWindingRule(WindingRule::EvenOdd),
                Action::FetchShapePath,
            ] + rest.trace(replies, at + 3)
        },
{
    reveal_with_fuel(Script::trace, 6);
    let t = mask_close(rest).trace(replies, at);
    if replies(at + 2) {
        assert(t =~= seq![
            Action::JoinPaths,
            Action::SetWindingRule(WindingRule::EvenOdd),
            Action::FetchShapePath,
            Action::SetShapePath,
            Action::SetLayerMask,
        ] + rest.trace(replies, at + 5));
    } else {
        assert(t =~= seq![
            Action::JoinPaths,
            Action::SetWindingRule(WindingRule::EvenOdd),
            Action::FetchShapePath,
        ] + rest.trace(replies, at + 3));
    }
}

spec fn mask_inner(border_width: Length, corner_radius: Length, rest: Script) -> Script {
    let hollow = Action::AppendRoundedRect(
        MaskPath::Inner,
        MaskRect::spec_within(border_width),
        corner_radius.at_least_zero(),
    );
    Script::ask(
        Action::MakePath(MaskPath::Inner),
        Script::perform(hollow, mask_close(rest)),
        rest,
    )
}

proof fn lemma_mask_inner_trace(
    border_width: Length,
    corner_radius: Length,
    rest: Script,
    replies: spec_fn(int) -> bool,
    at: int,
)
    ensures
        mask_inner(border_width, corner_radius, rest).trace(replies, at) == if replies(at) {
            seq![
                Action::MakePath(MaskPath::Inner),
                Action::AppendRoundedRect(
                    MaskPath::Inner,
                    MaskRect::spec_within(border_width),
                    corner_radius.at_least_zero(),
                ),
            ] + mask_close(rest).trace(replies, at + 2)
        } else {
            seq![Action::MakePath(MaskPath::Inner)] + rest.trace(replies, at + 1)
        },
{
    reveal_with_fuel(Script::trace, 3);
    let hollow = Action::AppendRoundedRect(
        MaskPath::Inner,
        MaskRect::spec_within(border_width),
        corner_radius.at_least_zero(),
    );
    if replies(at) {
        assert(mask_inner(border_width, corner_radius, rest).trace(replies, at) =~= seq![
            Action::MakePath(MaskPath::Inner),
            hollow,
        ] + mask_close(rest).trace(replies, at + 2));
    }
}

spec fn mask_outer(border_width: Length, corner_radius: Length, rest: Script) -> Script {
    let full = Action::AppendRoundedRect(MaskPath::Outer, MaskRect::spec_whole(), corner_radius);
    Script::ask(
        Action::MakePath(MaskPath::Outer),
        Script::perform(full, mask_inner(border_width, corner_radius, rest)),
        rest,
    )
}

proof fn lemma_mask_outer_trace(
    border_width: Length,
    corner_radius: Length,
    rest: Script,
    replies: spec_fn(int) -> bool,
    at: int,
)
    ensures
        mask_outer(border_width, corner_radius, rest).trace(replies, at) == if replies(at) {
            seq![
                Action::MakePath(MaskPath::Outer),
                Action::AppendRoundedRect(MaskPath::Outer, MaskRect::spec_whole(), corner_radius),
            ] + mask_inner(border_width, corner_radius, rest).trace(replies, at + 2)
        } else {
            seq![Action::MakePath(MaskPath::Outer)] + rest.trace(replies, at + 1)
        },
{
    reveal_with_fuel(Script::trace, 3);
    let full = Action::AppendRoundedRect(MaskPath::Outer, MaskRect::spec_whole(), corner_radius);
    if replies(at) {
        assert(mask_outer(border_width, corner_radius, rest).trace(replies, at) =~= seq![
            Action::MakePath(MaskPath::Outer),
            full,
        ] + mask_inner(border_width, corner_radius, rest).trace(replies, at + 2));
    }
}

/// Clearing is taking the border down and nothing else.
pub proof fn law_clear_trace(replies: spec_fn(int) -> bool, at: int)
    ensures
        ({
            let t = crate::border_glass::clear_script().trace(replies, at);
            let forget = Action::ForgetBorder(AssociationPolicy::Retain);
            &&& !replies(at) ==> t == seq![Action::FindBorder]
            &&& replies(at) && !replies(at + 1) ==> t == seq![
                Action::FindBorder,
                Action::RetainBorder,
                forget,
            ]
            &&& replies(at) && replies(at + 1) ==> t == seq![
                Action::FindBorder,
                Action::RetainBorder,
                Action::DetachBorder,
                forget,
            ]
        }),
{
    let removed = Script::End(Outcome::Cleared(true));
    let absent = Script::End(Outcome::Cleared(false));
    law_remove_trace(removed, absent, replies, at);
    let t = crate::border_glass::clear_script().trace(replies, at);
    let forget = Action::ForgetBorder(AssociationPolicy::Retain);
    assert(removed.trace(replies, at + 3) =~= Seq::<Action>::empty());
    assert(removed.trace(replies, at + 4) =~= Seq::<Action>::empty());
    assert(absent.trace(replies, at + 1) =~= Seq::<Action>::empty());
    if !replies(at) {
        assert(t =~= seq![Action::FindBorder]);
    } else if !replies(at + 1) {
        assert(t =~= seq![Action::FindBorder, Action::RetainBorder, forget]);
    } else {
        assert(t =~= seq![
            Action::FindBorder,
            Action::RetainBorder,
            Action::DetachBorder,
            forget,
        ]);
    }
}

/// What clearing tells goes by whether a border was found, and by nothing that is reported
/// after that.
pub proof fn law_clear_tells_what_was_found()
    ensures
        crate::border_glass::clear_script().head() == Some(Action::FindBorder),
        crate::border_glass::clear_script().after(true).always_ends_in(Outcome::Cleared(true)),
        crate::border_glass::clear_script().after(false).always_ends_in(Outcome::Cleared(false)),
{
    reveal_with_fuel(Script::always_ends_in, 5);
}

} // verus!
