//! What holds of border glasses as a whole.
use crate::action::{
    Action, AssociationPolicy, GlassProperty, MaskPath, MaskRect, Payload, Selector, WindingRule,
};
use crate::length::Length;
use crate::options::{BorderGlassOptions, Color, NSGlassEffectVariant, NSVisualEffectState};
use crate::scene::Scene;
use crate::script::{Outcome, Script};
use vstd::prelude::*;

verus! {

/// Sending to the first responder leaves the container as it is.
proof fn lemma_first_responder(
    selectors: Seq<Selector>,
    payload: Payload,
    rest: Script,
    scene: Scene,
    outcome: Outcome,
    end: Scene,
)
    ensures
        scene.leads_to(
            crate::messages::first_responder_script(selectors, payload, rest),
            outcome,
            end,
        ) == scene.leads_to(rest, outcome, end),
    decreases selectors.len(),
{
    reveal_with_fuel(Scene::leads_to, 3);
    if selectors.len() > 0 {
        lemma_first_responder(selectors.drop_first(), payload, rest, scene, outcome, end);
    }
}

proof fn lemma_offer(
    property: GlassProperty,
    fallback: Script,
    rest: Script,
    scene: Scene,
    outcome: Outcome,
    end: Scene,
)
    requires
        scene.leads_to(fallback, outcome, end) == scene.leads_to(rest, outcome, end),
    ensures
        scene.leads_to(crate::messages::offer_script(property, fallback, rest), outcome, end)
            == scene.leads_to(rest, outcome, end),
{
    reveal_with_fuel(Scene::leads_to, 4);
}

/// Making the view ready leaves the container as it is.
proof fn lemma_dress(
    options: BorderGlassOptions,
    rest: Script,
    scene: Scene,
    outcome: Outcome,
    end: Scene,
)
    ensures
        scene.leads_to(crate::border_glass::dress_script(options, rest), outcome, end)
            == scene.leads_to(rest, outcome, end),
{
    let radius = options.corner_radius();
    let masked = crate::mask::mask_script(options.border_width, radius, rest);
    assert(scene.leads_to(masked, outcome, end) == scene.leads_to(rest, outcome, end)) by {
        reveal_with_fuel(Scene::leads_to, 15);
    }
    let rounded = crate::border_glass::round_script(radius, masked);
    assert(scene.leads_to(rounded, outcome, end) == scene.leads_to(masked, outcome, end)) by {
        reveal_with_fuel(Scene::leads_to, 5);
    }
    let let_through = crate::messages::ignores_mouse_events_script(true, rounded);
    let mouse = seq![Selector::PrivateSetIgnoresMouseEvents, Selector::SetIgnoresMouseEvents];
    let ignore = Payload::Boolean(true);
    lemma_first_responder(mouse, ignore, rounded, scene, outcome, end);
    lemma_offer(
        GlassProperty::IgnoresMouseEvents(true),
        crate::messages::first_responder_script(mouse, ignore, rounded),
        rounded,
        scene,
        outcome,
        end,
    );
    let state = options.effective_state();
    let stated = crate::messages::state_script(state, let_through);
    let states = seq![Selector::PrivateSetState, Selector::SetState];
    let number = Payload::Integer(state.number() as isize);
    lemma_first_responder(states, number, let_through, scene, outcome, end);
    lemma_offer(
        GlassProperty::State(state),
        crate::messages::first_responder_script(states, number, let_through),
        let_through,
        scene,
        outcome,
        end,
    );
    let configured = crate::appearance::appearance_script(options, let_through);
    assert(scene.leads_to(configured, outcome, end) == scene.leads_to(stated, outcome, end)) by {
        reveal_with_fuel(Scene::leads_to, 7);
    }
    let styles = seq![Selector::SetStyle];
    let style = Payload::Integer(options.variant.number() as isize);
    lemma_first_responder(styles, style, configured, scene, outcome, end);
    lemma_offer(
        GlassProperty::StyleVariant(options.variant),
        crate::messages::first_responder_script(styles, style, configured),
        configured,
        scene,
        outcome,
        end,
    );
}

/// Taking a border glass down, on its own or before another is put up, leaves the
/// container without one.
proof fn lemma_remove(removed: Script, absent: Script, scene: Scene, outcome: Outcome, end: Scene)
    ensures
        scene.leads_to(crate::removal::remove_script(removed, absent), outcome, end)
            == scene.cleared().leads_to(
            if scene.border != 0 {
                removed
            } else {
                absent
            },
            outcome,
            end,
        ),
{
    reveal_with_fuel(Scene::leads_to, 5);
    assert(scene.border == 0 ==> scene.cleared() == scene);
    if scene.border != 0 {
        let detached = scene.after(Action::DetachBorder);
        assert(detached.after(Action::ForgetBorder(AssociationPolicy::Retain)) == scene.cleared());
    }
}

/// Whatever the window system reports, applying a border glass takes down the one that is
/// there, puts the new view in front of every other subview and remembers it.
pub proof fn law_apply_replaces_border(options: BorderGlassOptions, scene: Scene)
    ensures
        scene.leads_to(
            crate::border_glass::apply_script(options),
            Outcome::Applied,
            scene.applied(),
        ),
{
    let end = scene.applied();
    let installed = crate::border_glass::install_script(Script::End(Outcome::Applied));
    let dressed = crate::border_glass::dress_script(options, installed);
    let put_up = crate::creation::create_script(dressed);
    let bare = scene.cleared();
    lemma_remove(put_up, put_up, scene, Outcome::Applied, end);
    assert(bare.leads_to(put_up, Outcome::Applied, end) == bare.leads_to(
        dressed,
        Outcome::Applied,
        end,
    )) by {
        reveal_with_fuel(Scene::leads_to, 8);
    }
    lemma_dress(options, installed, bare, Outcome::Applied, end);
    reveal_with_fuel(Scene::leads_to, 3);
}

/// Whatever the window system reports, clearing takes down the border glass that is there,
/// leaves the other subviews as they are, and tells whether there was one.
pub proof fn law_clear_removes_border(scene: Scene)
    ensures
        scene.leads_to(
            crate::border_glass::clear_script(),
            Outcome::Cleared(scene.border != 0),
            scene.cleared(),
        ),
{
    lemma_remove(
        Script::End(Outcome::Cleared(true)),
        Script::End(Outcome::Cleared(false)),
        scene,
        Outcome::Cleared(scene.border != 0),
        scene.cleared(),
    );
}

/// Leaving out a view that is not there changes nothing.
proof fn lemma_filter_absent(views: Seq<usize>, view: usize)
    requires
        !views.contains(view),
    ensures
        views.filter(|v: usize| v != view) == views,
    decreases views.len(),
{
    reveal(Seq::filter);
    if views.len() > 0 {
        assert(views.last() != view);
        assert forall|i: int| 0 <= i < views.drop_last().len() implies views.drop_last()[i]
            != view by {
            assert(views[i] != view);
        }
        lemma_filter_absent(views.drop_last(), view);
        assert(views.drop_last().push(views.last()) == views);
    }
}

/// Taking the border glass down again leaves what was there before, less any border glass
/// that was up already.
proof fn lemma_cleared_after_applied(scene: Scene)
    requires
        scene.valid(),
    ensures
        scene.applied().cleared() == scene.cleared(),
{
    let others = scene.cleared().subviews;
    let keep = |view: usize| view != scene.fresh;
    assert(!others.contains(scene.fresh)) by {
        broadcast use vstd::seq_lib::group_filter_ensures;

        if scene.border != 0 {
            let kept = |view: usize| view != scene.border;
            assert forall|i: int| 0 <= i < others.len() implies others[i] != scene.fresh by {
                scene.subviews.lemma_filter_contains_rev(kept, others[i]);
            }
        }
    }
    lemma_filter_absent(others, scene.fresh);
    reveal(Seq::filter);
    assert(others.push(scene.fresh).drop_last() =~= others);
    assert(others.push(scene.fresh).filter(keep) =~= others);
    assert(scene.applied().cleared() =~= scene.cleared());
}

/// Clearing undoes applying: it tells that there was a border glass, and leaves the other
/// subviews as they were.
pub proof fn law_clear_undoes_apply(options: BorderGlassOptions, scene: Scene)
    requires
        scene.valid(),
    ensures
        scene.leads_to(
            crate::border_glass::apply_script(options),
            Outcome::Applied,
            scene.applied(),
        ),
        scene.applied().leads_to(
            crate::border_glass::clear_script(),
            Outcome::Cleared(true),
            scene.cleared(),
        ),
        scene.border == 0 ==> scene.cleared() == scene,
{
    law_apply_replaces_border(options, scene);
    law_clear_removes_border(scene.applied());
    lemma_cleared_after_applied(scene);
}

/// Clearing a second time finds nothing and changes nothing.
pub proof fn law_clear_twice(scene: Scene)
    ensures
        scene.cleared().leads_to(
            crate::border_glass::clear_script(),
            Outcome::Cleared(false),
            scene.cleared(),
        ),
{
    law_clear_removes_border(scene.cleared());
    assert(scene.cleared().cleared() =~= scene.cleared());
}

/// Applying a second time leaves one border glass, the second: the container ends up as if
/// the first had never been applied.
pub proof fn law_apply_twice(options: BorderGlassOptions, scene: Scene, second: usize)
    requires
        scene.valid(),
    ensures
        scene.applied().with_fresh(second).leads_to(
            crate::border_glass::apply_script(options),
            Outcome::Applied,
            scene.with_fresh(second).applied(),
        ),
{
    law_apply_replaces_border(options, scene.applied().with_fresh(second));
    lemma_cleared_after_applied(scene);
    let again = scene.applied().with_fresh(second);
    assert(again.cleared().subviews == scene.applied().cleared().subviews);
    assert(again.applied() =~= scene.with_fresh(second).applied());
}

/// After applying, the new view and no other is the border glass; after clearing, none is.
pub proof fn law_border_is_recognised(scene: Scene, view: usize)
    requires
        scene.valid(),
    ensures
        crate::border_glass::is_border(scene.applied().border, view) <==> view == scene.fresh,
        !crate::border_glass::is_border(scene.cleared().border, view),
{
}

/// A container has its border glass once, in front of all other subviews.
pub proof fn law_border_is_in_front_once(scene: Scene)
    requires
        scene.valid(),
    ensures
        scene.applied().subviews.last() == scene.fresh,
        scene.applied().subviews.drop_last() == scene.cleared().subviews,
        !scene.cleared().subviews.contains(scene.fresh),
        scene.border != 0 ==> !scene.applied().subviews.contains(scene.border),
{
    let others = scene.cleared().subviews;
    let kept = |view: usize| view != scene.border;
    assert(scene.applied().subviews.drop_last() =~= others);
    if scene.border != 0 {
        assert forall|i: int| 0 <= i < others.len() implies others[i] != scene.fresh && others[i]
            != scene.border by {
            broadcast use vstd::seq_lib::group_filter_ensures;

            scene.subviews.lemma_filter_contains_rev(kept, others[i]);
            assert(kept(others[i]));
        }
    }
}

/// Whatever the window system reports, applying comes to putting the view in front of the
/// container and remembering it.
pub proof fn law_apply_always_installs(options: BorderGlassOptions)
    ensures
        crate::border_glass::apply_script(options).always_reaches(
            crate::border_glass::install_script(Script::End(Outcome::Applied)),
        ),
{
    let installed = crate::border_glass::install_script(Script::End(Outcome::Applied));
    let radius = options.corner_radius();
    let masked = crate::mask::mask_script(options.border_width, radius, installed);
    assert(masked.always_reaches(installed)) by {
        reveal_with_fuel(Script::always_reaches, 15);
    }
    let rounded = crate::border_glass::round_script(radius, masked);
    assert(rounded.always_reaches(installed)) by {
        reveal_with_fuel(Script::always_reaches, 5);
    }
    let let_through = crate::messages::ignores_mouse_events_script(true, rounded);
    assert(let_through.always_reaches(installed)) by {
        reveal_with_fuel(Script::always_reaches, 8);
        reveal_with_fuel(crate::messages::first_responder_script, 3);
    }
    let stated = crate::messages::state_script(options.effective_state(), let_through);
    assert(stated.always_reaches(installed)) by {
        reveal_with_fuel(Script::always_reaches, 8);
        reveal_with_fuel(crate::messages::first_responder_script, 3);
    }
    let configured = crate::appearance::appearance_script(options, let_through);
    assert(configured.always_reaches(installed)) by {
        reveal_with_fuel(Script::always_reaches, 7);
    }
    let dressed = crate::border_glass::dress_script(options, installed);
    assert(dressed.always_reaches(installed)) by {
        reveal_with_fuel(Script::always_reaches, 6);
        reveal_with_fuel(crate::messages::first_responder_script, 2);
    }
    let put_up = crate::creation::create_script(dressed);
    assert(put_up.always_reaches(installed)) by {
        reveal_with_fuel(Script::always_reaches, 8);
    }
    reveal_with_fuel(Script::always_reaches, 5);
}

/// What always comes to an ending ends that way.
proof fn lemma_reaching_ends(script: Script, door: Script, outcome: Outcome)
    requires
        script.always_reaches(door),
        door.always_ends_in(outcome),
    ensures
        script.always_ends_in(outcome),
    decreases script,
{
    if script != door {
        if let Script::Next(_, yes, no) = script {
            lemma_reaching_ends(*yes, door, outcome);
            lemma_reaching_ends(*no, door, outcome);
        }
    }
}

/// No report keeps a border glass from being applied.
pub proof fn law_apply_always_succeeds(options: BorderGlassOptions)
    ensures
        crate::border_glass::apply_script(options).always_ends_in(Outcome::Applied),
{
    let installed = crate::border_glass::install_script(Script::End(Outcome::Applied));
    law_apply_always_installs(options);
    assert(installed.always_ends_in(Outcome::Applied)) by {
        reveal_with_fuel(Script::always_ends_in, 3);
    }
    lemma_reaching_ends(
        crate::border_glass::apply_script(options),
        installed,
        Outcome::Applied,
    );
}

/// A border that is found is forgotten, even if it cannot be taken hold of, and is told of.
pub proof fn law_found_border_is_forgotten()
    ensures
        crate::border_glass::clear_script().after(true).always_reaches(
            Script::perform(
                Action::ForgetBorder(AssociationPolicy::Retain),
                Script::End(Outcome::Cleared(true)),
            ),
        ),
        crate::border_glass::clear_script().after(false) == Script::End(Outcome::Cleared(false)),
{
    reveal_with_fuel(Script::always_reaches, 3);
}

/// Every report brings a run closer to its end.
pub proof fn law_reports_shorten(script: Script, reply: bool)
    requires
        script.head() is Some,
    ensures
        script.after(reply).length() < script.length(),
{
}

proof fn lemma_length_first_responder(
    selectors: Seq<Selector>,
    payload: Payload,
    rest: Script,
)
    ensures
        crate::messages::first_responder_script(selectors, payload, rest).length()
            <= selectors.len() + 1 + rest.length(),
    decreases selectors.len(),
{
    reveal_with_fuel(Script::length, 3);
    if selectors.len() > 0 {
        lemma_length_first_responder(selectors.drop_first(), payload, rest);
    }
}

proof fn lemma_length_offer(property: GlassProperty, fallback: Script, rest: Script, bound: nat)
    requires
        fallback.length() <= bound,
        rest.length() <= bound,
    ensures
        crate::messages::offer_script(property, fallback, rest).length() <= 3 + bound,
{
    reveal_with_fuel(Script::length, 4);
}

proof fn lemma_length_mask(border_width: Length, corner_radius: Length, rest: Script)
    ensures
        crate::mask::mask_script(border_width, corner_radius, rest).length() <= 14
            + rest.length(),
{
    let install = Script::perform(
        Action::SetShapePath,
        Script::perform(Action::SetLayerMask, rest),
    );
    assert(install.length() == 2 + rest.length()) by {
        reveal_with_fuel(Script::length, 3);
    }
    let close = Script::perform(
        Action::JoinPaths,
        Script::perform(
            Action::SetWindingRule(WindingRule::EvenOdd),
            Script::ask(Action::FetchShapePath, install, rest),
        ),
    );
    assert(close.length() == 5 + rest.length()) by {
        reveal_with_fuel(Script::length, 4);
    }
    let hollow = Action::AppendRoundedRect(
        MaskPath::Inner,
        MaskRect::spec_within(border_width),
        corner_radius.at_least_zero(),
    );
    let inner = Script::ask(
        Action::MakePath(MaskPath::Inner),
        Script::perform(hollow, close),
        rest,
    );
    assert(inner.length() == 7 + rest.length()) by {
        reveal_with_fuel(Script::length, 3);
    }
    let full = Action::AppendRoundedRect(MaskPath::Outer, MaskRect::spec_whole(), corner_radius);
    let outer = Script::ask(
        Action::MakePath(MaskPath::Outer),
        Script::perform(full, inner),
        rest,
    );
    assert(outer.length() == 9 + rest.length()) by {
        reveal_with_fuel(Script::length, 3);
    }
    let shape = Script::ask(
        Action::MakeShapeLayer,
        Script::perform(Action::SetShapeFrame, outer),
        rest,
    );
    assert(shape.length() == 11 + rest.length()) by {
        reveal_with_fuel(Script::length, 3);
    }
    reveal_with_fuel(Script::length, 4);
}

proof fn lemma_length_round(radius: Length, rest: Script)
    ensures
        crate::border_glass::round_script(radius, rest).length() <= 4 + rest.length(),
{
    reveal_with_fuel(Script::length, 5);
}

proof fn lemma_length_ignores_mouse_events(rest: Script)
    ensures
        crate::messages::ignores_mouse_events_script(true, rest).length() <= 6 + rest.length(),
{
    let selectors = seq![Selector::PrivateSetIgnoresMouseEvents, Selector::SetIgnoresMouseEvents];
    let payload = Payload::Boolean(true);
    lemma_length_first_responder(selectors, payload, rest);
    lemma_length_offer(
        GlassProperty::IgnoresMouseEvents(true),
        crate::messages::first_responder_script(selectors, payload, rest),
        rest,
        3 + rest.length(),
    );
}

proof fn lemma_length_state(state: NSVisualEffectState, rest: Script)
    ensures
        crate::messages::state_script(state, rest).length() <= 6 + rest.length(),
{
    let selectors = seq![Selector::PrivateSetState, Selector::SetState];
    let payload = Payload::Integer(state.number() as isize);
    lemma_length_first_responder(selectors, payload, rest);
    lemma_length_offer(
        GlassProperty::State(state),
        crate::messages::first_responder_script(selectors, payload, rest),
        rest,
        3 + rest.length(),
    );
}

proof fn lemma_length_style(style: NSGlassEffectVariant, rest: Script)
    ensures
        crate::messages::style_script(style, rest).length() <= 5 + rest.length(),
{
    let selectors = seq![Selector::SetStyle];
    let payload = Payload::Integer(style.number() as isize);
    lemma_length_first_responder(selectors, payload, rest);
    lemma_length_offer(
        GlassProperty::StyleVariant(style),
        crate::messages::first_responder_script(selectors, payload, rest),
        rest,
        2 + rest.length(),
    );
}

proof fn lemma_length_tint(color: Color, rest: Script)
    ensures
        crate::appearance::tint_script(color, rest).length() <= 6 + rest.length(),
{
    let fill = crate::appearance::fill_background_script(rest);
    assert(fill.length() <= 4 + rest.length()) by {
        reveal_with_fuel(Script::length, 5);
    }
    reveal_with_fuel(Script::length, 3);
}

proof fn lemma_length_dress(options: BorderGlassOptions, rest: Script)
    ensures
        crate::border_glass::dress_script(options, rest).length() <= 41 + rest.length(),
{
    let radius = options.corner_radius();
    lemma_length_mask(options.border_width, radius, rest);
    let masked = crate::mask::mask_script(options.border_width, radius, rest);
    lemma_length_round(radius, masked);
    let rounded = crate::border_glass::round_script(radius, masked);
    lemma_length_ignores_mouse_events(rounded);
    let let_through = crate::messages::ignores_mouse_events_script(true, rounded);
    lemma_length_state(options.effective_state(), let_through);
    let stated = crate::messages::state_script(options.effective_state(), let_through);
    if let Some(color) = options.tint {
        lemma_length_tint(color, stated);
    }
    lemma_length_style(options.variant, crate::appearance::appearance_script(options, let_through));
}

proof fn lemma_length_create(rest: Script)
    ensures
        crate::creation::create_script(rest).length() <= 7 + rest.length(),
{
    let visual = crate::creation::visual_effect_script(rest);
    assert(visual.length() == 5 + rest.length()) by {
        reveal_with_fuel(Script::length, 6);
    }
    reveal_with_fuel(Script::length, 4);
}

proof fn lemma_length_remove(removed: Script, absent: Script, bound: nat)
    requires
        removed.length() <= bound,
        absent.length() <= bound,
    ensures
        crate::removal::remove_script(removed, absent).length() <= 4 + bound,
{
    reveal_with_fuel(Script::length, 5);
}

/// Applying takes at most 54 actions, and clearing at most four.
pub proof fn law_runs_are_short(options: BorderGlassOptions)
    ensures
        crate::border_glass::apply_script(options).length() <= 54,
        crate::border_glass::clear_script().length() <= 4,
{
    let installed = crate::border_glass::install_script(Script::End(Outcome::Applied));
    assert(installed.length() == 2) by {
        reveal_with_fuel(Script::length, 3);
    }
    lemma_length_dress(options, installed);
    let dressed = crate::border_glass::dress_script(options, installed);
    lemma_length_create(dressed);
    let put_up = crate::creation::create_script(dressed);
    lemma_length_remove(put_up, put_up, 50);
    lemma_length_remove(
        Script::End(Outcome::Cleared(true)),
        Script::End(Outcome::Cleared(false)),
        0,
    );
}

/// A message goes to the first selector that the view answers to, after the ones before it
/// have been asked for, and to no other.
pub proof fn law_first_responder_is_sent(
    selectors: Seq<Selector>,
    payload: Payload,
    rest: Script,
    replies: spec_fn(int) -> bool,
    at: int,
    k: int,
)
    requires
        0 <= k < selectors.len(),
        forall|j: int| 0 <= j < k ==> !#[trigger] replies(at + j),
        replies(at + k),
    ensures
        crate::messages::first_responder_script(selectors, payload, rest).trace(replies, at)
            == Seq::new((k + 1) as nat, |j: int| Action::RespondsTo(selectors[j])).push(
            Action::Send(selectors[k], payload),
        ) + rest.trace(replies, at + k + 2),
    decreases k,
{
    let script = crate::messages::first_responder_script(selectors, payload, rest);
    let asked = Seq::new((k + 1) as nat, |j: int| Action::RespondsTo(selectors[j]));
    reveal_with_fuel(Script::trace, 3);
    if k == 0 {
        assert(replies(at));
    } else {
        let others = selectors.drop_first();
        assert(!replies(at + 0));
        assert forall|j: int| 0 <= j < k - 1 implies !#[trigger] replies((at + 1) + j) by {
            assert(!replies(at + (j + 1)));
        }
        assert(replies((at + 1) + (k - 1)));
        law_first_responder_is_sent(others, payload, rest, replies, at + 1, k - 1);
        let later = Seq::new(k as nat, |j: int| Action::RespondsTo(others[j]));
        assert(asked =~= seq![Action::RespondsTo(selectors[0])] + later);
    }
    assert(script.trace(replies, at) =~= asked.push(Action::Send(selectors[k], payload))
        + rest.trace(replies, at + k + 2));
}

/// Where the view answers to none of the selectors, each is asked for once and nothing is
/// sent.
pub proof fn law_nothing_is_sent_without_responder(
    selectors: Seq<Selector>,
    payload: Payload,
    rest: Script,
    replies: spec_fn(int) -> bool,
    at: int,
)
    requires
        forall|j: int| 0 <= j < selectors.len() ==> !#[trigger] replies(at + j),
    ensures
        crate::messages::first_responder_script(selectors, payload, rest).trace(replies, at)
            == Seq::new(selectors.len(), |j: int| Action::RespondsTo(selectors[j]))
            + rest.trace(replies, at + selectors.len()),
    decreases selectors.len(),
{
    let script = crate::messages::first_responder_script(selectors, payload, rest);
    let asked = Seq::new(selectors.len(), |j: int| Action::RespondsTo(selectors[j]));
    if selectors.len() > 0 {
        let others = selectors.drop_first();
        assert(!replies(at + 0));
        assert forall|j: int| 0 <= j < others.len() implies !#[trigger] replies((at + 1) + j) by {
            assert(!replies(at + (j + 1)));
        }
        law_nothing_is_sent_without_responder(others, payload, rest, replies, at + 1);
        let later = Seq::new(others.len(), |j: int| Action::RespondsTo(others[j]));
        assert(asked =~= seq![Action::RespondsTo(selectors[0])] + later);
    }
    assert(script.trace(replies, at) =~= asked + rest.trace(replies, at + selectors.len()));
}

/// A property that the glass view takes is not sent in a message besides.
pub proof fn law_glass_setter_suffices(
    property: GlassProperty,
    fallback: Script,
    rest: Script,
    replies: spec_fn(int) -> bool,
    at: int,
)
    requires
        replies(at) && replies(at + 1) && replies(at + 2),
    ensures
        crate::messages::offer_script(property, fallback, rest).trace(replies, at) == seq![
            Action::IsGlassAvailable,
            Action::RetainGlass,
            Action::OfferToGlass(property),
        ] + rest.trace(replies, at + 3),
{
    reveal_with_fuel(Script::trace, 4);
    assert(crate::messages::offer_script(property, fallback, rest).trace(replies, at) =~= seq![
        Action::IsGlassAvailable,
        Action::RetainGlass,
        Action::OfferToGlass(property),
    ] + rest.trace(replies, at + 3));
}

/// The steps that it takes to mask a layer with a ring.
pub open spec fn masking(border_width: Length, corner_radius: Length) -> Seq<Action> {
    seq![
        Action::SetWantsLayer(true),
        Action::FetchLayer,
        Action::ReadLayerBounds,
        Action::MakeShapeLayer,
        Action::SetShapeFrame,
        Action::MakePath(MaskPath::Outer),
        Action::AppendRoundedRect(MaskPath::Outer, MaskRect::spec_whole(), corner_radius),
        Action::MakePath(MaskPath::Inner),
        Action::AppendRoundedRect(
            MaskPath::Inner,
            MaskRect::spec_within(border_width),
            corner_radius.at_least_zero(),
        ),
        Action::JoinPaths,
        Action::SetWindingRule(WindingRule::EvenOdd),
        Action::FetchShapePath,
        Action::SetShapePath,
        Action::SetLayerMask,
    ]
}

/// A layer gets a mask only if each of the five objects that it takes is to be had, and
/// then the mask is the whole ring. Up to the first that is not to be had, the same steps
/// are taken.
pub proof fn law_mask_is_whole_or_absent(
    border_width: Length,
    corner_radius: Length,
    outcome: Outcome,
    replies: spec_fn(int) -> bool,
    at: int,
)
    ensures
        ({
            let trace = crate::mask::mask_script(
                border_width,
                corner_radius,
                Script::End(outcome),
            ).trace(replies, at);
            let whole = masking(border_width, corner_radius);
            let had = replies(at + 1) && replies(at + 3) && replies(at + 5) && replies(at + 7)
                && replies(at + 11);
            &&& trace.is_prefix_of(whole)
            &&& (trace == whole) == had
            &&& trace.contains(Action::SetLayerMask) == had
        }),
{
    let script = crate::mask::mask_script(border_width, corner_radius, Script::End(outcome));
    let trace = script.trace(replies, at);
    let whole = masking(border_width, corner_radius);
    reveal_with_fuel(Script::trace, 15);
    let taken = if !replies(at + 1) {
        2
    } else if !replies(at + 3) {
        4
    } else if !replies(at + 5) {
        6
    } else if !replies(at + 7) {
        8
    } else if !replies(at + 11) {
        12
    } else {
        14int
    };
    assert(trace =~= whole.take(taken));
    assert(trace.len() == taken);
    assert(trace =~= whole.subrange(0, trace.len() as int));
    assert(whole.len() == 14);
    assert forall|i: int| 0 <= i < 13 implies whole[i] != Action::SetLayerMask by {}
    if taken == 14 {
        assert(trace =~= whole);
        assert(trace[13] == Action::SetLayerMask);
    }
    assert(trace.is_prefix_of(whole));
    assert((trace == whole) == (taken == 14));
    assert(trace.contains(Action::SetLayerMask) == (taken == 14));
}

/// The ring is as wide on the far sides as on the near ones: in exact arithmetic, what is
/// left of a side of any length beyond the inner rectangle is the border width.
pub proof fn law_ring_is_even(border_width: Length, side: int)
    ensures
        MaskRect::spec_within(border_width).x.value() == border_width.value(),
        MaskRect::spec_within(border_width).y.value() == border_width.value(),
        MaskRect::spec_within(border_width).far_gap(side) == border_width.value(),
        MaskRect::spec_whole().x.value() == 0,
        MaskRect::spec_whole().y.value() == 0,
        MaskRect::spec_whole().extent(side) == side,
{
}

/// A component of a colour is a share between nothing and the whole, and takes both
/// values at its own ends.
pub proof fn law_share_is_at_most_one(component: u8)
    ensures
        0 < crate::appearance::share(component).denominator,
        crate::appearance::share(component).numerator
            <= crate::appearance::share(component).denominator,
        crate::appearance::share(component).numerator == 0 <==> component == 0,
        crate::appearance::share(component).numerator == crate::appearance::share(
            component,
        ).denominator <==> component == 255,
{
}

/// Colours that differ have components that differ.
pub proof fn law_components_tell_colors_apart(one: Color, other: Color)
    requires
        one != other,
    ensures
        crate::appearance::components(one) != crate::appearance::components(other),
{
}

} // verus!
