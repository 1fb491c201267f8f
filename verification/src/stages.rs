//! What applying does with what it is asked for.
//!
//! A run that applies a border glass goes through stages, one after the other. Each starts
//! where the one before it is over, which the reports decide.
use crate::action::{
    Action, AssociationPolicy, Autoresizing, BlendingMode, Fraction, GlassProperty, MaskPath,
    MaskRect, Material, NSColorComponents, Payload, Placement, Selector, ViewClass, WindingRule,
};
use crate::length::Length;
use crate::options::{BorderGlassOptions, NSGlassEffectVariant, NSVisualEffectState};
use crate::script::{Outcome, Script};
use crate::traces;
use vstd::prelude::*;

verus! {

/// The actions that applying takes, where the first of them reports `replies(0)`, the next
/// `replies(1)` and so on.
pub open spec fn apply_trace(options: BorderGlassOptions, replies: spec_fn(int) -> bool) -> Seq<
    Action,
> {
    crate::border_glass::apply_script(options).trace(replies, 0)
}

/// Where making the view starts.
pub open spec fn create_start(replies: spec_fn(int) -> bool) -> int {
    if !replies(0) {
        1
    } else if !replies(1) {
        3
    } else {
        4
    }
}

/// Where giving the view its look starts.
pub open spec fn style_start(replies: spec_fn(int) -> bool) -> int {
    let n = create_start(replies);
    if replies(n + 1) {
        n + 3
    } else {
        n + 7
    }
}

/// Where tinting the view starts.
pub open spec fn tint_start(replies: spec_fn(int) -> bool) -> int {
    traces::property_end_of_one(replies, style_start(replies))
}

/// Where putting the view in its state starts.
pub open spec fn state_start(options: BorderGlassOptions, replies: spec_fn(int) -> bool) -> int {
    let n = tint_start(replies);
    if options.tint is Some {
        traces::tint_end(replies, n)
    } else {
        n
    }
}

/// Where letting mouse events through starts.
pub open spec fn mouse_start(options: BorderGlassOptions, replies: spec_fn(int) -> bool) -> int {
    traces::property_end_of_two(replies, state_start(options, replies))
}

/// Where rounding the corners starts.
pub open spec fn round_start(options: BorderGlassOptions, replies: spec_fn(int) -> bool) -> int {
    traces::property_end_of_two(replies, mouse_start(options, replies))
}

/// Whether a radius greater than zero is asked for.
pub open spec fn asks_for_rounding(options: BorderGlassOptions) -> bool {
    options.radius matches Some(radius) && 0 < radius.bits <= 0x7ff0_0000_0000_0000
}

/// Where masking the view starts.
pub open spec fn mask_start(options: BorderGlassOptions, replies: spec_fn(int) -> bool) -> int {
    let n = round_start(options, replies);
    if !asks_for_rounding(options) {
        n
    } else if replies(n + 1) {
        n + 4
    } else {
        n + 2
    }
}

/// Where putting the view into the container starts.
pub open spec fn install_start(options: BorderGlassOptions, replies: spec_fn(int) -> bool) -> int {
    traces::mask_end(replies, mask_start(options, replies))
}

spec fn from_install() -> Script {
    crate::border_glass::install_script(Script::End(Outcome::Applied))
}

spec fn from_mask(options: BorderGlassOptions) -> Script {
    crate::mask::mask_script(options.border_width, options.corner_radius(), from_install())
}

spec fn from_round(options: BorderGlassOptions) -> Script {
    crate::border_glass::round_script(options.corner_radius(), from_mask(options))
}

spec fn from_mouse(options: BorderGlassOptions) -> Script {
    crate::messages::ignores_mouse_events_script(true, from_round(options))
}

spec fn from_state(options: BorderGlassOptions) -> Script {
    crate::messages::state_script(options.effective_state(), from_mouse(options))
}

spec fn from_tint(options: BorderGlassOptions) -> Script {
    crate::appearance::appearance_script(options, from_mouse(options))
}

spec fn from_style(options: BorderGlassOptions) -> Script {
    crate::messages::style_script(options.variant, from_tint(options))
}

spec fn from_create(options: BorderGlassOptions) -> Script {
    crate::creation::create_script(from_style(options))
}

/// What a trace does after a part of it, which starts at `n` and is over at `end`.
proof fn lemma_after_part(t: Seq<Action>, n: int, end: int, rest: Seq<Action>)
    requires
        0 <= n <= end <= t.len(),
        t.skip(n).skip(end - n) == rest,
    ensures
        t.skip(end) == rest,
        t.subrange(n, end) == t.skip(n).take(end - n),
{
    assert(t.skip(end) =~= t.skip(n).skip(end - n));
    assert(t.subrange(n, end) =~= t.skip(n).take(end - n));
}

/// Applying starts by taking down the border that is there: it is looked for, taken hold of,
/// detached if that succeeds, and forgotten in any case.
pub proof fn law_apply_first_removes(options: BorderGlassOptions, replies: spec_fn(int) -> bool)
    ensures
        create_start(replies) <= apply_trace(options, replies).len(),
        apply_trace(options, replies).take(create_start(replies)) == if !replies(0) {
            seq![Action::FindBorder]
        } else if !replies(1) {
            seq![
                Action::FindBorder,
                Action::RetainBorder,
                Action::ForgetBorder(AssociationPolicy::Retain),
            ]
        } else {
            seq![
                Action::FindBorder,
                Action::RetainBorder,
                Action::DetachBorder,
                Action::ForgetBorder(AssociationPolicy::Retain),
            ]
        },
{
    traces::law_remove_trace(from_create(options), from_create(options), replies, 0);
    assert(apply_trace(options, replies).skip(0) =~= apply_trace(options, replies));
    lemma_to_create(options, replies);
}

proof fn lemma_to_create(options: BorderGlassOptions, replies: spec_fn(int) -> bool)
    ensures
        ({
            let t = apply_trace(options, replies);
            let n: int = 0;
            let end = create_start(replies);
            &&& 0 <= n <= end <= t.len()
            &&& t.skip(end) == from_create(options).trace(replies, end)
            &&& t.subrange(n, end) == t.skip(n).take(end - n)
        }),
{
    let t = apply_trace(options, replies);
    let n: int = 0;
    let end = create_start(replies);
    traces::law_remove_trace(from_create(options), from_create(options), replies, 0);
    assert(apply_trace(options, replies).skip(0) =~= apply_trace(options, replies));
    assert(t.skip(n).skip(end - n) =~= from_create(options).trace(replies, end));
    lemma_after_part(t, n, end, from_create(options).trace(replies, end));
}

/// Then the view is made: of glass where that succeeds, else as a visual effect view that is
/// always active and blends what lies behind the window.
pub proof fn law_apply_then_creates(options: BorderGlassOptions, replies: spec_fn(int) -> bool)
    ensures
        ({
            let t = apply_trace(options, replies);
            let n = create_start(replies);
            let follow = Autoresizing { width: true, height: true };
            &&& style_start(replies) <= t.len()
            &&& t.subrange(n, style_start(replies)) == if replies(n + 1) {
                seq![
                    Action::ReadContainerBounds,
                    Action::MakeGlassView,
                    Action::SetAutoresizing(ViewClass::Glass, follow),
                ]
            } else {
                seq![
                    Action::ReadContainerBounds,
                    Action::MakeGlassView,
                    Action::MakeVisualEffectView,
                    Action::SetBlendingMode(BlendingMode::BehindWindow),
                    Action::SetMaterial(Material::UnderWindowBackground),
                    Action::SetVisualEffectState(NSVisualEffectState::Active),
                    Action::SetAutoresizing(ViewClass::VisualEffect, follow),
                ]
            }
        }),
{
    let n = create_start(replies);
    lemma_to_create(options, replies);
    traces::law_create_trace(from_style(options), replies, n);
    lemma_to_style(options, replies);
}

proof fn lemma_to_style(options: BorderGlassOptions, replies: spec_fn(int) -> bool)
    ensures
        ({
            let t = apply_trace(options, replies);
            let n = create_start(replies);
            let end = style_start(replies);
            &&& 0 <= n <= end <= t.len()
            &&& t.skip(end) == from_style(options).trace(replies, end)
            &&& t.subrange(n, end) == t.skip(n).take(end - n)
        }),
{
    let t = apply_trace(options, replies);
    let n = create_start(replies);
    let end = style_start(replies);
    lemma_to_create(options, replies);
    traces::law_create_trace(from_style(options), replies, n);
    assert(t.skip(n).skip(end - n) =~= from_style(options).trace(replies, end));
    lemma_after_part(t, n, end, from_style(options).trace(replies, end));
}

/// Then the glass is offered the look that the options name. Where it is not there, cannot be
/// held or does not take it, and the view answers to `setStyle:`, the number of that look is
/// sent.
pub proof fn law_apply_then_sets_style(options: BorderGlassOptions, replies: spec_fn(int) -> bool)
    ensures
        ({
            let t = apply_trace(options, replies);
            let n = style_start(replies);
            let m = traces::offer_end(replies, n);
            let number: i64 = match options.variant {
                NSGlassEffectVariant::Regular => 0,
                NSGlassEffectVariant::Clear => 1,
                NSGlassEffectVariant::Other(number) => number,
            };
            let ask = Action::RespondsTo(Selector::SetStyle);
            let send = Action::Send(Selector::SetStyle, Payload::Integer(number as isize));
            &&& tint_start(replies) <= t.len()
            &&& t.subrange(n, tint_start(replies)) == seq![
                Action::IsGlassAvailable,
                Action::RetainGlass,
                Action::OfferToGlass(GlassProperty::StyleVariant(options.variant)),
            ].take(m - n) + if traces::taken(replies, n) {
                seq![]
            } else if replies(m) {
                seq![ask, send]
            } else {
                seq![ask]
            }
        }),
{
    let n = style_start(replies);
    lemma_to_style(options, replies);
    traces::law_style_trace(options.variant, from_tint(options), replies, n);
    lemma_to_tint(options, replies);
}

proof fn lemma_to_tint(options: BorderGlassOptions, replies: spec_fn(int) -> bool)
    ensures
        ({
            let t = apply_trace(options, replies);
            let n = style_start(replies);
            let end = tint_start(replies);
            &&& 0 <= n <= end <= t.len()
            &&& t.skip(end) == from_tint(options).trace(replies, end)
            &&& t.subrange(n, end) == t.skip(n).take(end - n)
        }),
{
    let t = apply_trace(options, replies);
    let n = style_start(replies);
    let end = tint_start(replies);
    lemma_to_style(options, replies);
    traces::law_style_trace(options.variant, from_tint(options), replies, n);
    assert(t.skip(n).skip(end - n) =~= from_tint(options).trace(replies, end));
    lemma_after_part(t, n, end, from_tint(options).trace(replies, end));
}

/// Then a tint that is asked for, whatever its components, is made into a colour, component
/// for component out of 255, and sent to a view that answers to `setTintColor:`; otherwise it
/// fills the background of the layer, where there is one. Without a tint nothing is done here.
pub proof fn law_apply_then_tints(options: BorderGlassOptions, replies: spec_fn(int) -> bool)
    ensures
        ({
            let t = apply_trace(options, replies);
            let n = tint_start(replies);
            let end = state_start(options, replies);
            &&& n <= end <= t.len()
            &&& match options.tint {
                None => end == n,
                Some(color) => t.subrange(n, end) == seq![
                    Action::MakeColor(
                        (NSColorComponents {
                            red: Fraction { numerator: color.0, denominator: 255 },
                            green: Fraction { numerator: color.1, denominator: 255 },
                            blue: Fraction { numerator: color.2, denominator: 255 },
                            alpha: Fraction { numerator: color.3, denominator: 255 },
                        }),
                    ),
                    Action::RespondsTo(Selector::SetTintColor),
                ] + if replies(n + 1) {
                    seq![Action::SendColor(Selector::SetTintColor)]
                } else if replies(n + 3) {
                    seq![
                        Action::SetWantsLayer(true),
                        Action::FetchLayer,
                        Action::MakeLayerColor,
                        Action::SetLayerBackground,
                    ]
                } else {
                    seq![Action::SetWantsLayer(true), Action::FetchLayer]
                },
            }
        }),
{
    let n = tint_start(replies);
    lemma_to_tint(options, replies);
    if let Some(color) = options.tint {
        traces::law_tint_trace(color, from_state(options), replies, n);
    }
    lemma_to_state(options, replies);
}

proof fn lemma_to_state(options: BorderGlassOptions, replies: spec_fn(int) -> bool)
    ensures
        ({
            let t = apply_trace(options, replies);
            let n = tint_start(replies);
            let end = state_start(options, replies);
            &&& 0 <= n <= end <= t.len()
            &&& t.skip(end) == from_state(options).trace(replies, end)
            &&& t.subrange(n, end) == t.skip(n).take(end - n)
        }),
{
    let t = apply_trace(options, replies);
    let n = tint_start(replies);
    let end = state_start(options, replies);
    lemma_to_tint(options, replies);
    if let Some(color) = options.tint {
        traces::law_tint_trace(color, from_state(options), replies, n);
    }
    assert(t.skip(n).skip(end - n) =~= from_state(options).trace(replies, end));
    lemma_after_part(t, n, end, from_state(options).trace(replies, end));
}

/// Then the glass is offered the state that the options name, or that of the window where they
/// name none. Where it is not there, cannot be held or does not take it, the number of that
/// state goes to the first of the two selectors that the view answers to.
pub proof fn law_apply_then_sets_state(options: BorderGlassOptions, replies: spec_fn(int) -> bool)
    ensures
        ({
            let t = apply_trace(options, replies);
            let n = state_start(options, replies);
            let m = traces::offer_end(replies, n);
            let state = match options.state {
                Some(state) => state,
                None => NSVisualEffectState::FollowsWindowActiveState,
            };
            let number: i64 = match state {
                NSVisualEffectState::FollowsWindowActiveState => 0,
                NSVisualEffectState::Active => 1,
                NSVisualEffectState::Inactive => 2,
            };
            let payload = Payload::Integer(number as isize);
            let ask = Action::RespondsTo(Selector::PrivateSetState);
            let ask_again = Action::RespondsTo(Selector::SetState);
            &&& mouse_start(options, replies) <= t.len()
            &&& t.subrange(n, mouse_start(options, replies)) == seq![
                Action::IsGlassAvailable,
                Action::RetainGlass,
                Action::OfferToGlass(GlassProperty::State(state)),
            ].take(m - n) + if traces::taken(replies, n) {
                seq![]
            } else if replies(m) {
                seq![ask, Action::Send(Selector::PrivateSetState, payload)]
            } else if replies(m + 1) {
                seq![ask, ask_again, Action::Send(Selector::SetState, payload)]
            } else {
                seq![ask, ask_again]
            }
        }),
{
    let n = state_start(options, replies);
    lemma_to_state(options, replies);
    traces::law_state_trace(options.effective_state(), from_mouse(options), replies, n);
    lemma_to_mouse(options, replies);
}

proof fn lemma_to_mouse(options: BorderGlassOptions, replies: spec_fn(int) -> bool)
    ensures
        ({
            let t = apply_trace(options, replies);
            let n = state_start(options, replies);
            let end = mouse_start(options, replies);
            &&& 0 <= n <= end <= t.len()
            &&& t.skip(end) == from_mouse(options).trace(replies, end)
            &&& t.subrange(n, end) == t.skip(n).take(end - n)
        }),
{
    let t = apply_trace(options, replies);
    let n = state_start(options, replies);
    let end = mouse_start(options, replies);
    lemma_to_state(options, replies);
    traces::law_state_trace(options.effective_state(), from_mouse(options), replies, n);
    assert(t.skip(n).skip(end - n) =~= from_mouse(options).trace(replies, end));
    lemma_after_part(t, n, end, from_mouse(options).trace(replies, end));
}

/// Then the view is made to let mouse events through, whatever the options: by the glass, or
/// by the first of the two selectors that the view answers to.
pub proof fn law_apply_then_lets_mouse_through(
    options: BorderGlassOptions,
    replies: spec_fn(int) -> bool,
)
    ensures
        ({
            let t = apply_trace(options, replies);
            let n = mouse_start(options, replies);
            let m = traces::offer_end(replies, n);
            let payload = Payload::Boolean(true);
            let ask = Action::RespondsTo(Selector::PrivateSetIgnoresMouseEvents);
            let ask_again = Action::RespondsTo(Selector::SetIgnoresMouseEvents);
            &&& round_start(options, replies) <= t.len()
            &&& t.subrange(n, round_start(options, replies)) == seq![
                Action::IsGlassAvailable,
                Action::RetainGlass,
                Action::OfferToGlass(GlassProperty::IgnoresMouseEvents(true)),
            ].take(m - n) + if traces::taken(replies, n) {
                seq![]
            } else if replies(m) {
                seq![ask, Action::Send(Selector::PrivateSetIgnoresMouseEvents, payload)]
            } else if replies(m + 1) {
                seq![ask, ask_again, Action::Send(Selector::SetIgnoresMouseEvents, payload)]
            } else {
                seq![ask, ask_again]
            }
        }),
{
    let n = mouse_start(options, replies);
    lemma_to_mouse(options, replies);
    traces::law_ignores_mouse_events_trace(true, from_round(options), replies, n);
    lemma_to_round(options, replies);
}

proof fn lemma_to_round(options: BorderGlassOptions, replies: spec_fn(int) -> bool)
    ensures
        ({
            let t = apply_trace(options, replies);
            let n = mouse_start(options, replies);
            let end = round_start(options, replies);
            &&& 0 <= n <= end <= t.len()
            &&& t.skip(end) == from_round(options).trace(replies, end)
            &&& t.subrange(n, end) == t.skip(n).take(end - n)
        }),
{
    let t = apply_trace(options, replies);
    let n = mouse_start(options, replies);
    let end = round_start(options, replies);
    lemma_to_mouse(options, replies);
    traces::law_ignores_mouse_events_trace(true, from_round(options), replies, n);
    assert(t.skip(n).skip(end - n) =~= from_round(options).trace(replies, end));
    lemma_after_part(t, n, end, from_round(options).trace(replies, end));
}

/// Then the corners of the layer, where there is one, get the radius that the options name, if
/// that is greater than zero; and nothing is clipped to them. Otherwise nothing is done here.
pub proof fn law_apply_then_rounds(options: BorderGlassOptions, replies: spec_fn(int) -> bool)
    ensures
        ({
            let t = apply_trace(options, replies);
            let n = round_start(options, replies);
            let end = mask_start(options, replies);
            &&& n <= end <= t.len()
            &&& match options.radius {
                Some(radius) if 0 < radius.bits && radius.bits <= 0x7ff0_0000_0000_0000 => {
                    t.subrange(n, end) == if replies(n + 1) {
                        seq![
                            Action::SetWantsLayer(true),
                            Action::FetchLayer,
                            Action::SetLayerCornerRadius(radius),
                            Action::SetLayerMasksToBounds(false),
                        ]
                    } else {
                        seq![Action::SetWantsLayer(true), Action::FetchLayer]
                    }
                },
                _ => end == n,
            }
        }),
{
    let n = round_start(options, replies);
    lemma_to_round(options, replies);
    crate::values::law_positive_lengths_by_bits(options.corner_radius());
    if let Some(radius) = options.radius {
        traces::law_corner_radius_trace(radius, from_mask(options), replies, n);
    }
    lemma_to_mask(options, replies);
}

proof fn lemma_to_mask(options: BorderGlassOptions, replies: spec_fn(int) -> bool)
    ensures
        ({
            let t = apply_trace(options, replies);
            let n = round_start(options, replies);
            let end = mask_start(options, replies);
            &&& 0 <= n <= end <= t.len()
            &&& t.skip(end) == from_mask(options).trace(replies, end)
            &&& t.subrange(n, end) == t.skip(n).take(end - n)
        }),
{
    let t = apply_trace(options, replies);
    let n = round_start(options, replies);
    let end = mask_start(options, replies);
    lemma_to_round(options, replies);
    crate::values::law_positive_lengths_by_bits(options.corner_radius());
    if let Some(radius) = options.radius {
        traces::law_corner_radius_trace(radius, from_mask(options), replies, n);
    }
    assert(t.skip(n).skip(end - n) =~= from_mask(options).trace(replies, end));
    lemma_after_part(t, n, end, from_mask(options).trace(replies, end));
}

/// Then the layer is masked with a ring as wide as the options name, its corners rounded by the
/// radius that they name: the layer's own rectangle, less one that lies a border width within
/// on each side, by the even-odd rule. Masking stops at the first object that is not to be had.
pub proof fn law_apply_then_masks(options: BorderGlassOptions, replies: spec_fn(int) -> bool)
    ensures
        ({
            let t = apply_trace(options, replies);
            let n = mask_start(options, replies);
            let end = install_start(options, replies);
            let zero = Length { bits: 0 };
            let width = options.border_width;
            let radius = match options.radius {
                Some(radius) => radius,
                None => zero,
            };
            let inner_radius = if asks_for_rounding(options) {
                radius
            } else {
                zero
            };
            &&& n <= end <= t.len()
            &&& t.subrange(n, end) == seq![
                Action::SetWantsLayer(true),
                Action::FetchLayer,
                Action::ReadLayerBounds,
                Action::MakeShapeLayer,
                Action::SetShapeFrame,
                Action::MakePath(MaskPath::Outer),
                Action::AppendRoundedRect(
                    MaskPath::Outer,
                    (MaskRect { x: zero, y: zero, inset: zero, insets: 0 }),
                    radius,
                ),
                Action::MakePath(MaskPath::Inner),
                Action::AppendRoundedRect(
                    MaskPath::Inner,
                    (MaskRect { x: width, y: width, inset: width, insets: 2 }),
                    inner_radius,
                ),
                Action::JoinPaths,
                Action::SetWindingRule(WindingRule::EvenOdd),
                Action::FetchShapePath,
                Action::SetShapePath,
                Action::SetLayerMask,
            ].take(end - n)
        }),
{
    let n = mask_start(options, replies);
    lemma_to_mask(options, replies);
    traces::law_mask_trace(
        options.border_width,
        options.corner_radius(),
        from_install(),
        replies,
        n,
    );
    lemma_to_install(options, replies);
}

proof fn lemma_to_install(options: BorderGlassOptions, replies: spec_fn(int) -> bool)
    ensures
        ({
            let t = apply_trace(options, replies);
            let n = mask_start(options, replies);
            let end = install_start(options, replies);
            &&& 0 <= n <= end <= t.len()
            &&& t.skip(end) == from_install().trace(replies, end)
            &&& t.subrange(n, end) == t.skip(n).take(end - n)
        }),
{
    let t = apply_trace(options, replies);
    let n = mask_start(options, replies);
    let end = install_start(options, replies);
    lemma_to_mask(options, replies);
    traces::law_mask_trace(
        options.border_width,
        options.corner_radius(),
        from_install(),
        replies,
        n,
    );
    assert(t.skip(n).skip(end - n) =~= from_install().trace(replies, end));
    lemma_after_part(t, n, end, from_install().trace(replies, end));
}

/// Last of all the view is put in front of the container's subviews and remembered.
pub proof fn law_apply_installs_last(options: BorderGlassOptions, replies: spec_fn(int) -> bool)
    ensures
        ({
            let t = apply_trace(options, replies);
            let n = install_start(options, replies);
            &&& t.len() == n + 2
            &&& t[n] == Action::AddSubview(Placement::AboveAll)
            &&& t[n + 1] == Action::RememberBorder(AssociationPolicy::Retain)
        }),
{
    let t = apply_trace(options, replies);
    let n = install_start(options, replies);
    lemma_to_install(options, replies);
    reveal_with_fuel(Script::trace, 3);
    let last = seq![
        Action::AddSubview(Placement::AboveAll),
        Action::RememberBorder(AssociationPolicy::Retain),
    ];
    assert(from_install().trace(replies, n) =~= last);
    assert(t.skip(n)[0] == t[n]);
    assert(t.skip(n)[1] == t[n + 1]);
}

} // verus!
