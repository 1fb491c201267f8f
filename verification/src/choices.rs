//! How the options show in what applying does, whatever the window system reports.
use crate::action::{
    Action, Fraction, GlassProperty, MaskPath, MaskRect, NSColorComponents, Payload, Selector,
};
use crate::length::Length;
use crate::options::{BorderGlassOptions, NSGlassEffectVariant, NSVisualEffectState};
use crate::stages;
use crate::traces;
use vstd::prelude::*;

verus! {

/// Whether an action carries what the options ask for.
spec fn fits(options: BorderGlassOptions, action: Action) -> bool {
    let zero = Length { bits: 0 };
    let width = options.border_width;
    let style: i64 = match options.variant {
        NSGlassEffectVariant::Regular => 0,
        NSGlassEffectVariant::Clear => 1,
        NSGlassEffectVariant::Other(number) => number,
    };
    let state: i64 = match options.state {
        None | Some(NSVisualEffectState::FollowsWindowActiveState) => 0,
        Some(NSVisualEffectState::Active) => 1,
        Some(NSVisualEffectState::Inactive) => 2,
    };
    match action {
        Action::AppendRoundedRect(MaskPath::Outer, rect, radius) => {
            &&& rect == MaskRect { x: zero, y: zero, inset: zero, insets: 0 }
            &&& options.radius matches Some(given) ==> radius == given
            &&& options.radius is None ==> radius == zero
        },
        Action::AppendRoundedRect(MaskPath::Inner, rect, radius) => {
            &&& rect == MaskRect { x: width, y: width, inset: width, insets: 2 }
            &&& stages::asks_for_rounding(options) ==> options.radius == Some(radius)
            &&& !stages::asks_for_rounding(options) ==> radius == zero
        },
        Action::SetLayerCornerRadius(radius) => stages::asks_for_rounding(options)
            && options.radius == Some(radius),
        Action::SetLayerMasksToBounds(masks) => !masks,
        Action::SetWantsLayer(wants) => wants,
        Action::SetAutoresizing(_, sides) => sides.width && sides.height,
        Action::SetVisualEffectState(state) => state == NSVisualEffectState::Active,
        Action::MakeColor(made) => options.tint matches Some(color) && made
            == NSColorComponents {
            red: Fraction { numerator: color.0, denominator: 255 },
            green: Fraction { numerator: color.1, denominator: 255 },
            blue: Fraction { numerator: color.2, denominator: 255 },
            alpha: Fraction { numerator: color.3, denominator: 255 },
        },
        Action::SendColor(selector) => options.tint is Some && selector == Selector::SetTintColor,
        Action::MakeLayerColor | Action::SetLayerBackground => options.tint is Some,
        Action::RespondsTo(Selector::SetTintColor) => options.tint is Some,
        Action::OfferToGlass(GlassProperty::StyleVariant(variant)) => variant == options.variant,
        Action::OfferToGlass(GlassProperty::State(state)) => {
            &&& options.state matches Some(given) ==> state == given
            &&& options.state is None ==> state == NSVisualEffectState::FollowsWindowActiveState
        },
        Action::OfferToGlass(GlassProperty::IgnoresMouseEvents(ignores)) => ignores,
        Action::Send(Selector::SetStyle, payload) => payload == Payload::Integer(style as isize),
        Action::Send(Selector::PrivateSetState, payload) => payload == Payload::Integer(
            state as isize,
        ),
        Action::Send(Selector::SetState, payload) => payload == Payload::Integer(state as isize),
        Action::Send(Selector::PrivateSetIgnoresMouseEvents, payload) => payload
            == Payload::Boolean(true),
        Action::Send(Selector::SetIgnoresMouseEvents, payload) => payload == Payload::Boolean(true),
        Action::Send(Selector::SetTintColor, _) => false,
        _ => true,
    }
}

spec fn all_fit(options: BorderGlassOptions, actions: Seq<Action>) -> bool {
    forall|i: int| 0 <= i < actions.len() ==> fits(options, #[trigger] actions[i])
}

/// What fits in a part of a trace fits in the trace.
proof fn lemma_part(options: BorderGlassOptions, t: Seq<Action>, n: int, end: int, i: int)
    requires
        0 <= n <= i < end <= t.len(),
        all_fit(options, t.subrange(n, end)),
    ensures
        fits(options, t[i]),
{
    assert(t.subrange(n, end)[i - n] == t[i]);
}

proof fn lemma_start_fits(options: BorderGlassOptions, replies: spec_fn(int) -> bool)
    ensures
        ({
            let t = stages::apply_trace(options, replies);
            &&& 0 <= stages::style_start(replies) <= t.len()
            &&& all_fit(options, t.take(stages::style_start(replies)))
        }),
{
    let t = stages::apply_trace(options, replies);
    let n = stages::create_start(replies);
    let end = stages::style_start(replies);
    stages::law_apply_first_removes(options, replies);
    stages::law_apply_then_creates(options, replies);
    assert(all_fit(options, t.subrange(n, end)));
    assert forall|i: int| 0 <= i < end implies fits(options, t.take(end)[i]) by {
        if i < n {
            assert(t.take(n)[i] == t[i]);
        } else {
            lemma_part(options, t, n, end, i);
        }
    }
}

proof fn lemma_style_fits(options: BorderGlassOptions, replies: spec_fn(int) -> bool)
    ensures
        all_fit(
            options,
            stages::apply_trace(options, replies).subrange(
                stages::style_start(replies),
                stages::tint_start(replies),
            ),
        ),
{
    stages::law_apply_then_sets_style(options, replies);
}

proof fn lemma_tint_fits(options: BorderGlassOptions, replies: spec_fn(int) -> bool)
    ensures
        all_fit(
            options,
            stages::apply_trace(options, replies).subrange(
                stages::tint_start(replies),
                stages::state_start(options, replies),
            ),
        ),
{
    stages::law_apply_then_tints(options, replies);
}

proof fn lemma_state_fits(options: BorderGlassOptions, replies: spec_fn(int) -> bool)
    ensures
        all_fit(
            options,
            stages::apply_trace(options, replies).subrange(
                stages::state_start(options, replies),
                stages::mouse_start(options, replies),
            ),
        ),
{
    stages::law_apply_then_sets_state(options, replies);
}

proof fn lemma_mouse_fits(options: BorderGlassOptions, replies: spec_fn(int) -> bool)
    ensures
        all_fit(
            options,
            stages::apply_trace(options, replies).subrange(
                stages::mouse_start(options, replies),
                stages::round_start(options, replies),
            ),
        ),
{
    stages::law_apply_then_lets_mouse_through(options, replies);
}

proof fn lemma_round_fits(options: BorderGlassOptions, replies: spec_fn(int) -> bool)
    ensures
        all_fit(
            options,
            stages::apply_trace(options, replies).subrange(
                stages::round_start(options, replies),
                stages::mask_start(options, replies),
            ),
        ),
{
    stages::law_apply_then_rounds(options, replies);
}

proof fn lemma_mask_fits(options: BorderGlassOptions, replies: spec_fn(int) -> bool)
    ensures
        all_fit(
            options,
            stages::apply_trace(options, replies).subrange(
                stages::mask_start(options, replies),
                stages::install_start(options, replies),
            ),
        ),
{
    stages::law_apply_then_masks(options, replies);
}

/// Every action of applying carries what the options ask for.
proof fn lemma_fits(options: BorderGlassOptions, replies: spec_fn(int) -> bool, i: int)
    requires
        0 <= i < stages::apply_trace(options, replies).len(),
    ensures
        fits(options, stages::apply_trace(options, replies)[i]),
{
    let t = stages::apply_trace(options, replies);
    lemma_start_fits(options, replies);
    stages::law_apply_then_tints(options, replies);
    stages::law_apply_then_rounds(options, replies);
    stages::law_apply_then_masks(options, replies);
    stages::law_apply_installs_last(options, replies);
    let style = stages::style_start(replies);
    let tint = stages::tint_start(replies);
    let state = stages::state_start(options, replies);
    let mouse = stages::mouse_start(options, replies);
    let round = stages::round_start(options, replies);
    let mask = stages::mask_start(options, replies);
    let install = stages::install_start(options, replies);
    if i < style {
        assert(t.take(style)[i] == t[i]);
    } else if i < tint {
        lemma_style_fits(options, replies);
        lemma_part(options, t, style, tint, i);
    } else if i < state {
        lemma_tint_fits(options, replies);
        lemma_part(options, t, tint, state, i);
    } else if i < mouse {
        lemma_state_fits(options, replies);
        lemma_part(options, t, state, mouse, i);
    } else if i < round {
        lemma_mouse_fits(options, replies);
        lemma_part(options, t, mouse, round, i);
    } else if i < mask {
        lemma_round_fits(options, replies);
        lemma_part(options, t, round, mask, i);
    } else if i < install {
        lemma_mask_fits(options, replies);
        lemma_part(options, t, mask, install, i);
    }
}

/// The inner rectangle of the ring lies within the border width that the options name, no
/// matter what else they name: its corner one border in, and two borders off each side. The
/// outer rectangle is the whole layer.
pub proof fn law_ring_is_as_wide_as_asked(
    options: BorderGlassOptions,
    replies: spec_fn(int) -> bool,
    i: int,
)
    requires
        0 <= i < stages::apply_trace(options, replies).len(),
    ensures
        stages::apply_trace(options, replies)[i] matches Action::AppendRoundedRect(
            MaskPath::Inner,
            rect,
            _,
        ) ==> {
            &&& rect.x == options.border_width
            &&& rect.y == options.border_width
            &&& rect.inset == options.border_width
            &&& rect.insets == 2
        },
        stages::apply_trace(options, replies)[i] matches Action::AppendRoundedRect(
            MaskPath::Outer,
            rect,
            _,
        ) ==> {
            &&& rect.x.bits == 0
            &&& rect.y.bits == 0
            &&& rect.insets == 0
        },
{
    lemma_fits(options, replies, i);
}

/// The outer rectangle of the ring is rounded by the radius that the options name, or not at
/// all where they name none; the inner one by the greater of that radius and zero. The layer's
/// own corners are rounded by it too, if at all, and only if it is greater than zero.
pub proof fn law_ring_is_as_round_as_asked(
    options: BorderGlassOptions,
    replies: spec_fn(int) -> bool,
    i: int,
)
    requires
        0 <= i < stages::apply_trace(options, replies).len(),
    ensures
        ({
            let action = stages::apply_trace(options, replies)[i];
            let given = match options.radius {
                Some(given) => given,
                None => Length { bits: 0 },
            };
            &&& action matches Action::AppendRoundedRect(MaskPath::Outer, _, radius) ==> radius
                == given
            &&& action matches Action::AppendRoundedRect(MaskPath::Inner, _, radius) ==> {
                &&& 0 < given.bits <= 0x7ff0_0000_0000_0000 ==> radius == given
                &&& !(0 < given.bits <= 0x7ff0_0000_0000_0000) ==> radius.bits == 0
            }
            &&& action matches Action::SetLayerCornerRadius(radius) ==> radius == given && 0
                < given.bits <= 0x7ff0_0000_0000_0000
            &&& action matches Action::SetLayerMasksToBounds(masks) ==> !masks
        }),
{
    lemma_fits(options, replies, i);
}

/// No colour is made but the tint that the options name, component for component out of 255;
/// and without a tint nothing is done with colours.
pub proof fn law_tint_is_as_asked(
    options: BorderGlassOptions,
    replies: spec_fn(int) -> bool,
    i: int,
)
    requires
        0 <= i < stages::apply_trace(options, replies).len(),
    ensures
        ({
            let action = stages::apply_trace(options, replies)[i];
            &&& action matches Action::MakeColor(made) ==> {
                &&& options.tint == Some(
                    (
                        made.red.numerator,
                        made.green.numerator,
                        made.blue.numerator,
                        made.alpha.numerator,
                    ),
                )
                &&& made.red.denominator == 255
                &&& made.green.denominator == 255
                &&& made.blue.denominator == 255
                &&& made.alpha.denominator == 255
            }
            &&& action matches Action::SendColor(selector) ==> selector == Selector::SetTintColor
            &&& options.tint is None ==> {
                &&& !(action is MakeColor)
                &&& !(action is SendColor)
                &&& !(action is MakeLayerColor)
                &&& !(action is SetLayerBackground)
                &&& action != Action::RespondsTo(Selector::SetTintColor)
            }
        }),
{
    lemma_fits(options, replies, i);
}

/// The view is put in the state that the options name, or in that of its window where they
/// name none, by the glass and by messages alike.
pub proof fn law_state_is_as_asked(
    options: BorderGlassOptions,
    replies: spec_fn(int) -> bool,
    i: int,
)
    requires
        0 <= i < stages::apply_trace(options, replies).len(),
    ensures
        ({
            let action = stages::apply_trace(options, replies)[i];
            let state = match options.state {
                Some(state) => state,
                None => NSVisualEffectState::FollowsWindowActiveState,
            };
            let number: i64 = match state {
                NSVisualEffectState::FollowsWindowActiveState => 0,
                NSVisualEffectState::Active => 1,
                NSVisualEffectState::Inactive => 2,
            };
            &&& action matches Action::OfferToGlass(GlassProperty::State(offered)) ==> offered
                == state
            &&& action matches Action::Send(Selector::PrivateSetState, payload) ==> payload
                == Payload::Integer(number as isize)
            &&& action matches Action::Send(Selector::SetState, payload) ==> payload
                == Payload::Integer(number as isize)
        }),
{
    lemma_fits(options, replies, i);
}

/// The view is given the look that the options name, by the glass and by messages alike.
pub proof fn law_style_is_as_asked(
    options: BorderGlassOptions,
    replies: spec_fn(int) -> bool,
    i: int,
)
    requires
        0 <= i < stages::apply_trace(options, replies).len(),
    ensures
        ({
            let action = stages::apply_trace(options, replies)[i];
            let number: i64 = match options.variant {
                NSGlassEffectVariant::Regular => 0,
                NSGlassEffectVariant::Clear => 1,
                NSGlassEffectVariant::Other(number) => number,
            };
            &&& action matches Action::OfferToGlass(GlassProperty::StyleVariant(offered))
                ==> offered == options.variant
            &&& action matches Action::Send(Selector::SetStyle, payload) ==> payload
                == Payload::Integer(number as isize)
        }),
{
    lemma_fits(options, replies, i);
}

/// Nothing stops mouse events at the view, and nothing takes its layer away; it follows its
/// superview in width and height, and one that is not of glass is active at all times.
pub proof fn law_view_is_passive(
    options: BorderGlassOptions,
    replies: spec_fn(int) -> bool,
    i: int,
)
    requires
        0 <= i < stages::apply_trace(options, replies).len(),
    ensures
        ({
            let action = stages::apply_trace(options, replies)[i];
            &&& action matches Action::OfferToGlass(GlassProperty::IgnoresMouseEvents(ignores))
                ==> ignores
            &&& action matches Action::Send(Selector::PrivateSetIgnoresMouseEvents, payload)
                ==> payload == Payload::Boolean(true)
            &&& action matches Action::Send(Selector::SetIgnoresMouseEvents, payload) ==> payload
                == Payload::Boolean(true)
            &&& action matches Action::SetWantsLayer(wants) ==> wants
            &&& action matches Action::SetAutoresizing(_, sides) ==> sides.width && sides.height
            &&& action matches Action::SetVisualEffectState(state) ==> state
                == NSVisualEffectState::Active
        }),
{
    lemma_fits(options, replies, i);
}

/// An element of a part of a trace, by its index in the trace.
proof fn lemma_at(t: Seq<Action>, n: int, end: int, i: int)
    requires
        0 <= n <= i < end <= t.len(),
    ensures
        t[i] == t.subrange(n, end)[i - n],
{
}

/// Where each layer, path and path value is to be had, the layer is masked, and before that
/// the inner rectangle, a border width within, has been cut out.
pub proof fn law_ring_is_cut_before_masking(
    options: BorderGlassOptions,
    replies: spec_fn(int) -> bool,
)
    requires
        forall|i: int|
            0 <= i < stages::apply_trace(options, replies).len()
                && match #[trigger] stages::apply_trace(options, replies)[i] {
                Action::FetchLayer
                | Action::MakeShapeLayer
                | Action::MakePath(_)
                | Action::FetchShapePath => true,
                _ => false,
            } ==> replies(i),
    ensures
        ({
            let t = stages::apply_trace(options, replies);
            let width = options.border_width;
            let radius = match options.radius {
                Some(given) if 0 < given.bits && given.bits <= 0x7ff0_0000_0000_0000 => given,
                _ => Length { bits: 0 },
            };
            exists|i: int, j: int|
                0 <= i < j < t.len() && #[trigger] t[i] == Action::AppendRoundedRect(
                    MaskPath::Inner,
                    (MaskRect { x: width, y: width, inset: width, insets: 2 }),
                    radius,
                ) && #[trigger] t[j] == Action::SetLayerMask
        }),
{
    let t = stages::apply_trace(options, replies);
    let n = stages::mask_start(options, replies);
    let end = stages::install_start(options, replies);
    stages::law_apply_then_masks(options, replies);
    lemma_start_fits(options, replies);
    stages::law_apply_then_rounds(options, replies);
    lemma_at(t, n, end, n + 1);
    lemma_at(t, n, end, n + 3);
    lemma_at(t, n, end, n + 5);
    lemma_at(t, n, end, n + 7);
    lemma_at(t, n, end, n + 11);
    lemma_at(t, n, end, n + 8);
    lemma_at(t, n, end, n + 13);
    assert(t[n + 8] is AppendRoundedRect);
    assert(t[n + 13] == Action::SetLayerMask);
}

/// A tint that is asked for is made into a colour, and the view is asked at once whether it
/// answers to `setTintColor:`. If so it is sent the colour; if not, the colour fills the
/// background of the layer, where there is one.
pub proof fn law_tint_reaches_view(
    options: BorderGlassOptions,
    replies: spec_fn(int) -> bool,
    color: crate::options::Color,
)
    requires
        options.tint == Some(color),
    ensures
        ({
            let t = stages::apply_trace(options, replies);
            exists|n: int| {
                &&& 0 <= n < t.len() - 3
                &&& #[trigger] t[n] == Action::MakeColor(
                    (NSColorComponents {
                        red: Fraction { numerator: color.0, denominator: 255 },
                        green: Fraction { numerator: color.1, denominator: 255 },
                        blue: Fraction { numerator: color.2, denominator: 255 },
                        alpha: Fraction { numerator: color.3, denominator: 255 },
                    }),
                )
                &&& t[n + 1] == Action::RespondsTo(Selector::SetTintColor)
                &&& replies(n + 1) ==> t[n + 2] == Action::SendColor(Selector::SetTintColor)
                &&& !replies(n + 1) ==> {
                    &&& t[n + 2] == Action::SetWantsLayer(true)
                    &&& t[n + 3] == Action::FetchLayer
                    &&& replies(n + 3) ==> {
                        &&& n + 5 < t.len()
                        &&& t[n + 4] == Action::MakeLayerColor
                        &&& t[n + 5] == Action::SetLayerBackground
                    }
                }
            }
        }),
{
    let t = stages::apply_trace(options, replies);
    let n = stages::tint_start(replies);
    let end = stages::state_start(options, replies);
    stages::law_apply_then_tints(options, replies);
    stages::law_apply_installs_last(options, replies);
    lemma_start_fits(options, replies);
    lemma_at(t, n, end, n);
    lemma_at(t, n, end, n + 1);
    lemma_at(t, n, end, n + 2);
    if !replies(n + 1) {
        lemma_at(t, n, end, n + 3);
        if replies(n + 3) {
            lemma_at(t, n, end, n + 4);
            lemma_at(t, n, end, n + 5);
        }
    }
    assert(t[n] is MakeColor);
}

/// Where the glass is there and can be held whenever it is asked for, it is offered the look
/// and the state that the options name, and is told to let mouse events through.
pub proof fn law_glass_is_offered_what_is_asked(
    options: BorderGlassOptions,
    replies: spec_fn(int) -> bool,
)
    requires
        forall|i: int|
            0 <= i < stages::apply_trace(options, replies).len()
                && match #[trigger] stages::apply_trace(options, replies)[i] {
                Action::IsGlassAvailable | Action::RetainGlass => true,
                _ => false,
            } ==> replies(i),
    ensures
        ({
            let t = stages::apply_trace(options, replies);
            let state = match options.state {
                Some(state) => state,
                None => NSVisualEffectState::FollowsWindowActiveState,
            };
            &&& t.contains(Action::OfferToGlass(GlassProperty::StyleVariant(options.variant)))
            &&& t.contains(Action::OfferToGlass(GlassProperty::State(state)))
            &&& t.contains(Action::OfferToGlass(GlassProperty::IgnoresMouseEvents(true)))
        }),
{
    let t = stages::apply_trace(options, replies);
    lemma_start_fits(options, replies);
    stages::law_apply_then_sets_style(options, replies);
    stages::law_apply_then_tints(options, replies);
    stages::law_apply_then_sets_state(options, replies);
    stages::law_apply_then_lets_mouse_through(options, replies);
    let style = stages::style_start(replies);
    let tint = stages::tint_start(replies);
    lemma_at(t, style, tint, style);
    lemma_at(t, style, tint, style + 1);
    lemma_at(t, style, tint, style + 2);
    let state = stages::state_start(options, replies);
    let mouse = stages::mouse_start(options, replies);
    lemma_at(t, state, mouse, state);
    lemma_at(t, state, mouse, state + 1);
    lemma_at(t, state, mouse, state + 2);
    let round = stages::round_start(options, replies);
    lemma_at(t, mouse, round, mouse);
    lemma_at(t, mouse, round, mouse + 1);
    lemma_at(t, mouse, round, mouse + 2);
}

/// Either the glass takes the look that the options name, or the view is asked whether it
/// answers to `setStyle:`, and is sent the number of that look if it does.
pub proof fn law_style_reaches_view(options: BorderGlassOptions, replies: spec_fn(int) -> bool)
    ensures
        ({
            let t = stages::apply_trace(options, replies);
            let number: i64 = match options.variant {
                NSGlassEffectVariant::Regular => 0,
                NSGlassEffectVariant::Clear => 1,
                NSGlassEffectVariant::Other(number) => number,
            };
            exists|n: int| {
                &&& 0 <= n < t.len() - 1
                &&& match #[trigger] t[n] {
                    Action::OfferToGlass(property) => property == GlassProperty::StyleVariant(
                        options.variant,
                    ) && replies(n),
                    Action::RespondsTo(selector) => selector == Selector::SetStyle && (replies(n)
                        ==> t[n + 1] == Action::Send(
                        Selector::SetStyle,
                        Payload::Integer(number as isize),
                    )),
                    _ => false,
                }
            }
        }),
{
    let t = stages::apply_trace(options, replies);
    let n = stages::style_start(replies);
    let m = traces::offer_end(replies, n);
    let end = stages::tint_start(replies);
    lemma_start_fits(options, replies);
    stages::law_apply_then_sets_style(options, replies);
    stages::law_apply_then_tints(options, replies);
    stages::law_apply_installs_last(options, replies);
    if traces::taken(replies, n) {
        lemma_at(t, n, end, n + 2);
        assert(t[n + 2] is OfferToGlass);
    } else {
        lemma_at(t, n, end, m);
        if replies(m) {
            lemma_at(t, n, end, m + 1);
        }
        assert(t[m] is RespondsTo);
    }
}

/// Either the glass takes the state that the options name, or that of the window where they
/// name none, or the view is asked whether it answers to the private selector, and if not to
/// the public one; the first that it answers to is sent the number of that state.
pub proof fn law_state_reaches_view(options: BorderGlassOptions, replies: spec_fn(int) -> bool)
    ensures
        ({
            let t = stages::apply_trace(options, replies);
            let state = match options.state {
                Some(state) => state,
                None => NSVisualEffectState::FollowsWindowActiveState,
            };
            let number: i64 = match state {
                NSVisualEffectState::FollowsWindowActiveState => 0,
                NSVisualEffectState::Active => 1,
                NSVisualEffectState::Inactive => 2,
            };
            let payload = Payload::Integer(number as isize);
            exists|n: int| {
                &&& 0 <= n < t.len() - 2
                &&& match #[trigger] t[n] {
                    Action::OfferToGlass(property) => property == GlassProperty::State(state)
                        && replies(n),
                    Action::RespondsTo(selector) => {
                        &&& selector == Selector::PrivateSetState
                        &&& replies(n) ==> t[n + 1] == Action::Send(selector, payload)
                        &&& !replies(n) ==> {
                            &&& t[n + 1] == Action::RespondsTo(Selector::SetState)
                            &&& replies(n + 1) ==> t[n + 2] == Action::Send(
                                Selector::SetState,
                                payload,
                            )
                        }
                    },
                    _ => false,
                }
            }
        }),
{
    let t = stages::apply_trace(options, replies);
    let n = stages::state_start(options, replies);
    let m = traces::offer_end(replies, n);
    let end = stages::mouse_start(options, replies);
    lemma_start_fits(options, replies);
    stages::law_apply_then_tints(options, replies);
    stages::law_apply_then_sets_state(options, replies);
    stages::law_apply_then_rounds(options, replies);
    stages::law_apply_installs_last(options, replies);
    if traces::taken(replies, n) {
        lemma_at(t, n, end, n + 2);
        assert(t[n + 2] is OfferToGlass);
    } else {
        lemma_at(t, n, end, m);
        lemma_at(t, n, end, m + 1);
        if !replies(m) && replies(m + 1) {
            lemma_at(t, n, end, m + 2);
        }
        assert(t[m] is RespondsTo);
    }
}

/// Either the glass agrees to let mouse events through, or the view is asked whether it
/// answers to the private selector, and if not to the public one; the first that it answers to
/// is told so.
pub proof fn law_mouse_passes_through_view(
    options: BorderGlassOptions,
    replies: spec_fn(int) -> bool,
)
    ensures
        ({
            let t = stages::apply_trace(options, replies);
            let payload = Payload::Boolean(true);
            exists|n: int| {
                &&& 0 <= n < t.len() - 2
                &&& match #[trigger] t[n] {
                    Action::OfferToGlass(property) => property == GlassProperty::IgnoresMouseEvents(
                        true,
                    ) && replies(n),
                    Action::RespondsTo(selector) => {
                        &&& selector == Selector::PrivateSetIgnoresMouseEvents
                        &&& replies(n) ==> t[n + 1] == Action::Send(selector, payload)
                        &&& !replies(n) ==> {
                            &&& t[n + 1] == Action::RespondsTo(Selector::SetIgnoresMouseEvents)
                            &&& replies(n + 1) ==> t[n + 2] == Action::Send(
                                Selector::SetIgnoresMouseEvents,
                                payload,
                            )
                        }
                    },
                    _ => false,
                }
            }
        }),
{
    let t = stages::apply_trace(options, replies);
    let n = stages::mouse_start(options, replies);
    let m = traces::offer_end(replies, n);
    let end = stages::round_start(options, replies);
    lemma_start_fits(options, replies);
    stages::law_apply_then_tints(options, replies);
    stages::law_apply_then_lets_mouse_through(options, replies);
    stages::law_apply_then_rounds(options, replies);
    stages::law_apply_installs_last(options, replies);
    if traces::taken(replies, n) {
        lemma_at(t, n, end, n + 2);
        assert(t[n + 2] is OfferToGlass);
    } else {
        lemma_at(t, n, end, m);
        lemma_at(t, n, end, m + 1);
        if !replies(m) && replies(m + 1) {
            lemma_at(t, n, end, m + 2);
        }
        assert(t[m] is RespondsTo);
    }
}

/// A radius greater than zero rounds the corners of the layer, where there is one whenever it
/// is fetched.
pub proof fn law_corners_are_rounded(
    options: BorderGlassOptions,
    replies: spec_fn(int) -> bool,
    radius: Length,
)
    requires
        options.radius == Some(radius),
        0 < radius.bits <= 0x7ff0_0000_0000_0000,
        forall|i: int|
            0 <= i < stages::apply_trace(options, replies).len() && #[trigger] stages::apply_trace(
                options,
                replies,
            )[i] == Action::FetchLayer ==> replies(i),
    ensures
        stages::apply_trace(options, replies).contains(Action::SetLayerCornerRadius(radius)),
{
    let t = stages::apply_trace(options, replies);
    let n = stages::round_start(options, replies);
    let end = stages::mask_start(options, replies);
    lemma_start_fits(options, replies);
    stages::law_apply_then_tints(options, replies);
    stages::law_apply_then_rounds(options, replies);
    lemma_at(t, n, end, n + 1);
    lemma_at(t, n, end, n + 2);
}

} // verus!
