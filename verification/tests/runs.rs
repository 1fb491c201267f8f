//! Runs, driven against a window system made of plain values.
use border_glass::appearance::apply_corner_radius_layer;
use border_glass::mask::create_border_mask;
use border_glass::messages::{
    send_optional_bool, send_optional_i64, set_border_glass_state, set_border_glass_style,
    set_border_view_ignores_mouse_events,
};
use border_glass::{
    apply_border_glass, clear_border_glass, is_border_glass_view, Action, AssociationPolicy,
    Autoresizing, BlendingMode, BorderGlassOptions, Error, Fraction, GlassProperty, Length,
    MaskPath, MaskRect, Material, NSColorComponents, NSGlassEffectVariant, NSVisualEffectState,
    Outcome, Payload, Placement, Plan, Progress, Run, Selector, Step, ViewClass, WindingRule,
};

fn points(x: f64) -> Length {
    Length { bits: x.to_bits() }
}

/// Drives a run to its end and lists what it did.
fn drive<F: FnMut(Action) -> bool>(mut run: Run, mut perform: F) -> (Vec<Action>, Outcome) {
    let mut done = Vec::new();
    loop {
        match run.poll() {
            Progress::Perform(action) => {
                // Looking twice changes nothing.
                assert_eq!(run.poll(), Progress::Perform(action));
                done.push(action);
                run.resume(perform(action));
            }
            Progress::Done(outcome) => {
                run.resume(true);
                run.resume(false);
                assert_eq!(run.poll(), Progress::Done(outcome));
                return (done, outcome);
            }
        }
    }
}

fn drive_plan<F: FnMut(Action) -> bool>(plan: Plan, perform: F) -> Vec<Action> {
    let (done, outcome) = drive(Run::start(plan, Outcome::Applied), perform);
    assert_eq!(outcome, Outcome::Applied);
    done
}

fn started(run: Result<Run, Error>) -> Run {
    match run {
        Ok(run) => run,
        Err(error) => panic!("{:?}", error),
    }
}

/// A container with its subviews, and a system that has glass or has none.
struct Window {
    border: usize,
    subviews: Vec<usize>,
    fresh: usize,
    glass: bool,
}

impl Window {
    fn perform(&mut self, action: Action) -> bool {
        let border = self.border;
        match action {
            Action::FindBorder | Action::RetainBorder => border != 0,
            Action::DetachBorder => {
                self.subviews.retain(|view| *view != border);
                true
            }
            Action::ForgetBorder(_) => {
                self.border = 0;
                true
            }
            Action::AddSubview(_) => {
                self.subviews.push(self.fresh);
                true
            }
            Action::RememberBorder(_) => {
                self.border = self.fresh;
                true
            }
            Action::MakeGlassView | Action::IsGlassAvailable => self.glass,
            _ => true,
        }
    }

    fn apply(&mut self, fresh: usize) -> Outcome {
        self.fresh = fresh;
        let run = started(apply_border_glass(true, BorderGlassOptions::default()));
        drive(run, |action| self.perform(action)).1
    }

    fn clear(&mut self) -> Outcome {
        drive(started(clear_border_glass(true)), |action| self.perform(action)).1
    }
}

const FOLLOW: Autoresizing = Autoresizing { width: true, height: true };

fn mask_actions(width: f64, radius: f64, inner_radius: f64) -> Vec<Action> {
    let zero = points(0.0);
    let border = points(width);
    vec![
        Action::SetWantsLayer(true),
        Action::FetchLayer,
        Action::ReadLayerBounds,
        Action::MakeShapeLayer,
        Action::SetShapeFrame,
        Action::MakePath(MaskPath::Outer),
        Action::AppendRoundedRect(
            MaskPath::Outer,
            MaskRect { x: zero, y: zero, inset: zero, insets: 0 },
            points(radius),
        ),
        Action::MakePath(MaskPath::Inner),
        Action::AppendRoundedRect(
            MaskPath::Inner,
            MaskRect { x: border, y: border, inset: border, insets: 2 },
            points(inner_radius),
        ),
        Action::JoinPaths,
        Action::SetWindingRule(WindingRule::EvenOdd),
        Action::FetchShapePath,
        Action::SetShapePath,
        Action::SetLayerMask,
    ]
}

#[test]
fn apply_with_glass_and_default_options() {
    let run = started(apply_border_glass(true, BorderGlassOptions::default()));
    let (done, outcome) = drive(run, |action| action != Action::FindBorder);
    let mut expected = vec![
        Action::FindBorder,
        Action::ReadContainerBounds,
        Action::MakeGlassView,
        Action::SetAutoresizing(ViewClass::Glass, FOLLOW),
        Action::IsGlassAvailable,
        Action::RetainGlass,
        Action::OfferToGlass(GlassProperty::StyleVariant(NSGlassEffectVariant::Clear)),
        Action::IsGlassAvailable,
        Action::RetainGlass,
        Action::OfferToGlass(GlassProperty::State(NSVisualEffectState::FollowsWindowActiveState)),
        Action::IsGlassAvailable,
        Action::RetainGlass,
        Action::OfferToGlass(GlassProperty::IgnoresMouseEvents(true)),
    ];
    expected.extend(mask_actions(1.0, 0.0, 0.0));
    expected.push(Action::AddSubview(Placement::AboveAll));
    expected.push(Action::RememberBorder(AssociationPolicy::Retain));
    assert_eq!(done, expected);
    assert_eq!(outcome, Outcome::Applied);
}

#[test]
fn apply_without_glass_falls_back() {
    let options = BorderGlassOptions {
        variant: NSGlassEffectVariant::Regular,
        tint: Some((255, 0, 51, 128)),
        radius: Some(points(8.5)),
        border_width: points(2.0),
        state: Some(NSVisualEffectState::Inactive),
    };
    let run = started(apply_border_glass(true, options));
    let (done, outcome) = drive(run, |action| match action {
        Action::FindBorder => true,
        Action::RetainBorder => true,
        Action::RespondsTo(Selector::SetState) => true,
        Action::FetchLayer => true,
        _ => false,
    });
    let share = |numerator: u8| Fraction { numerator, denominator: 255 };
    let expected = vec![
        Action::FindBorder,
        Action::RetainBorder,
        Action::DetachBorder,
        Action::ForgetBorder(AssociationPolicy::Retain),
        Action::ReadContainerBounds,
        Action::MakeGlassView,
        Action::MakeVisualEffectView,
        Action::SetBlendingMode(BlendingMode::BehindWindow),
        Action::SetMaterial(Material::UnderWindowBackground),
        Action::SetVisualEffectState(NSVisualEffectState::Active),
        Action::SetAutoresizing(ViewClass::VisualEffect, FOLLOW),
        Action::IsGlassAvailable,
        Action::RespondsTo(Selector::SetStyle),
        Action::MakeColor(NSColorComponents {
            red: share(255),
            green: share(0),
            blue: share(51),
            alpha: share(128),
        }),
        Action::RespondsTo(Selector::SetTintColor),
        Action::SetWantsLayer(true),
        Action::FetchLayer,
        Action::MakeLayerColor,
        Action::SetLayerBackground,
        Action::IsGlassAvailable,
        Action::RespondsTo(Selector::PrivateSetState),
        Action::RespondsTo(Selector::SetState),
        Action::Send(Selector::SetState, Payload::Integer(2)),
        Action::IsGlassAvailable,
        Action::RespondsTo(Selector::PrivateSetIgnoresMouseEvents),
        Action::RespondsTo(Selector::SetIgnoresMouseEvents),
        Action::SetWantsLayer(true),
        Action::FetchLayer,
        Action::SetLayerCornerRadius(points(8.5)),
        Action::SetLayerMasksToBounds(false),
        Action::SetWantsLayer(true),
        Action::FetchLayer,
        Action::ReadLayerBounds,
        Action::MakeShapeLayer,
        Action::AddSubview(Placement::AboveAll),
        Action::RememberBorder(AssociationPolicy::Retain),
    ];
    assert_eq!(done, expected);
    assert_eq!(outcome, Outcome::Applied);
}

#[test]
fn tint_goes_to_the_view_where_it_has_one() {
    let options = BorderGlassOptions { tint: Some((1, 2, 3, 4)), ..BorderGlassOptions::default() };
    let (done, _) = drive(started(apply_border_glass(true, options)), |_| true);
    let asked = done.iter().position(|a| *a == Action::RespondsTo(Selector::SetTintColor));
    let asked = asked.unwrap();
    assert_eq!(done[asked + 1], Action::SendColor(Selector::SetTintColor));
    assert!(!done.contains(&Action::SetLayerBackground));
}

#[test]
fn no_tint_without_a_layer() {
    let options = BorderGlassOptions { tint: Some((1, 2, 3, 4)), ..BorderGlassOptions::default() };
    let (done, outcome) = drive(started(apply_border_glass(true, options)), |_| false);
    assert!(!done.contains(&Action::MakeLayerColor));
    assert!(!done.contains(&Action::SetLayerMask));
    assert_eq!(outcome, Outcome::Applied);
}

#[test]
fn apply_off_the_main_thread_is_refused() {
    match apply_border_glass(false, BorderGlassOptions::default()) {
        Err(error) => assert_eq!(
            error,
            Error::NotMainThread("apply_border_glass must be called on main thread")
        ),
        Ok(_) => panic!("started off the main thread"),
    }
}

#[test]
fn clear_off_the_main_thread_is_refused() {
    match clear_border_glass(false) {
        Err(error) => assert_eq!(
            error,
            Error::NotMainThread("clear_border_glass must be called on main thread")
        ),
        Ok(_) => panic!("started off the main thread"),
    }
}

#[test]
fn clear_without_a_border() {
    let (done, outcome) = drive(started(clear_border_glass(true)), |_| false);
    assert_eq!(done, vec![Action::FindBorder]);
    assert_eq!(outcome, Outcome::Cleared(false));
}

#[test]
fn clear_with_a_border() {
    let (done, outcome) = drive(started(clear_border_glass(true)), |_| true);
    let expected = vec![
        Action::FindBorder,
        Action::RetainBorder,
        Action::DetachBorder,
        Action::ForgetBorder(AssociationPolicy::Retain),
    ];
    assert_eq!(done, expected);
    assert_eq!(outcome, Outcome::Cleared(true));
}

#[test]
fn border_that_cannot_be_held_is_forgotten_all_the_same() {
    let run = started(clear_border_glass(true));
    let (done, outcome) = drive(run, |action| action != Action::RetainBorder);
    let expected = vec![
        Action::FindBorder,
        Action::RetainBorder,
        Action::ForgetBorder(AssociationPolicy::Retain),
    ];
    assert_eq!(done, expected);
    assert_eq!(outcome, Outcome::Cleared(true));
}

#[test]
fn apply_puts_the_border_in_front() {
    for glass in [true, false] {
        let mut window = Window { border: 0, subviews: vec![11, 12], fresh: 0, glass };
        assert_eq!(window.apply(40), Outcome::Applied);
        assert_eq!(window.subviews, vec![11, 12, 40]);
        assert_eq!(window.border, 40);
    }
}

#[test]
fn clear_undoes_apply() {
    let mut window = Window { border: 0, subviews: vec![11, 12], fresh: 0, glass: true };
    window.apply(40);
    assert_eq!(window.clear(), Outcome::Cleared(true));
    assert_eq!(window.subviews, vec![11, 12]);
    assert_eq!(window.border, 0);
}

#[test]
fn clear_twice_finds_nothing() {
    let mut window = Window { border: 0, subviews: vec![11], fresh: 0, glass: true };
    window.apply(40);
    assert_eq!(window.clear(), Outcome::Cleared(true));
    assert_eq!(window.clear(), Outcome::Cleared(false));
    assert_eq!(window.subviews, vec![11]);
}

#[test]
fn apply_twice_leaves_one_border() {
    let mut window = Window { border: 0, subviews: vec![11, 12], fresh: 0, glass: false };
    window.apply(40);
    window.subviews.push(13);
    window.apply(41);
    assert_eq!(window.subviews, vec![11, 12, 13, 41]);
    assert_eq!(window.border, 41);
}

#[test]
fn border_is_recognised() {
    let mut window = Window { border: 0, subviews: vec![11], fresh: 0, glass: true };
    assert!(!is_border_glass_view(window.border, 0));
    assert!(!is_border_glass_view(window.border, 11));
    window.apply(40);
    assert!(is_border_glass_view(window.border, 40));
    assert!(!is_border_glass_view(window.border, 11));
    window.clear();
    assert!(!is_border_glass_view(window.border, 40));
}

#[test]
fn message_goes_to_the_first_responder() {
    let selectors = vec![Selector::SetStyle, Selector::PrivateSetState, Selector::SetState];
    let done = drive_plan(send_optional_i64(&selectors, -7), |action| {
        action != Action::RespondsTo(Selector::SetStyle)
    });
    let expected = vec![
        Action::RespondsTo(Selector::SetStyle),
        Action::RespondsTo(Selector::PrivateSetState),
        Action::Send(Selector::PrivateSetState, Payload::Integer(-7)),
    ];
    assert_eq!(done, expected);
}

#[test]
fn message_goes_nowhere_without_responder() {
    let selectors = vec![Selector::SetStyle, Selector::SetState];
    let done = drive_plan(send_optional_bool(&selectors, true), |_| false);
    let expected =
        vec![Action::RespondsTo(Selector::SetStyle), Action::RespondsTo(Selector::SetState)];
    assert_eq!(done, expected);
    assert_eq!(drive_plan(send_optional_bool(&Vec::new(), true), |_| true), Vec::new());
}

#[test]
fn boolean_message_carries_its_value() {
    for value in [true, false] {
        let selectors = vec![Selector::SetIgnoresMouseEvents];
        let done = drive_plan(send_optional_bool(&selectors, value), |_| true);
        let send = Action::Send(Selector::SetIgnoresMouseEvents, Payload::Boolean(value));
        assert_eq!(done[1], send);
    }
}

#[test]
fn style_is_offered_then_sent() {
    let variant = NSGlassEffectVariant::Other(11);
    let offer = Action::OfferToGlass(GlassProperty::StyleVariant(variant));
    let taken = drive_plan(set_border_glass_style(variant), |_| true);
    assert_eq!(taken, vec![Action::IsGlassAvailable, Action::RetainGlass, offer]);

    let refused = drive_plan(set_border_glass_style(variant), |action| action != offer);
    let mut expected = vec![Action::IsGlassAvailable, Action::RetainGlass, offer];
    expected.push(Action::RespondsTo(Selector::SetStyle));
    expected.push(Action::Send(Selector::SetStyle, Payload::Integer(11)));
    assert_eq!(refused, expected);

    let lost = drive_plan(set_border_glass_style(variant), |a| a != Action::RetainGlass);
    let expected = vec![
        Action::IsGlassAvailable,
        Action::RetainGlass,
        Action::RespondsTo(Selector::SetStyle),
        Action::Send(Selector::SetStyle, Payload::Integer(11)),
    ];
    assert_eq!(lost, expected);
}

#[test]
fn state_prefers_the_private_selector() {
    let state = NSVisualEffectState::Active;
    let done = drive_plan(set_border_glass_state(state), |a| a != Action::IsGlassAvailable);
    let expected = vec![
        Action::IsGlassAvailable,
        Action::RespondsTo(Selector::PrivateSetState),
        Action::Send(Selector::PrivateSetState, Payload::Integer(1)),
    ];
    assert_eq!(done, expected);
}

#[test]
fn mouse_events_fall_back_to_the_public_selector() {
    let done = drive_plan(set_border_view_ignores_mouse_events(false), |action| {
        action == Action::RespondsTo(Selector::SetIgnoresMouseEvents)
    });
    let expected = vec![
        Action::IsGlassAvailable,
        Action::RespondsTo(Selector::PrivateSetIgnoresMouseEvents),
        Action::RespondsTo(Selector::SetIgnoresMouseEvents),
        Action::Send(Selector::SetIgnoresMouseEvents, Payload::Boolean(false)),
    ];
    assert_eq!(done, expected);
}

#[test]
fn corners_are_rounded_where_there_is_a_layer() {
    let radius = points(12.0);
    let done = drive_plan(apply_corner_radius_layer(radius), |_| true);
    let expected = vec![
        Action::SetWantsLayer(true),
        Action::FetchLayer,
        Action::SetLayerCornerRadius(radius),
        Action::SetLayerMasksToBounds(false),
    ];
    assert_eq!(done, expected);
    let done = drive_plan(apply_corner_radius_layer(radius), |_| false);
    assert_eq!(done, expected[..2].to_vec());
}

#[test]
fn corners_are_rounded_for_positive_radii_only() {
    for (radius, rounded) in [
        (None, false),
        (Some(0.0), false),
        (Some(-0.0), false),
        (Some(-3.0), false),
        (Some(f64::NAN), false),
        (Some(f64::MIN_POSITIVE), true),
        (Some(6.0), true),
        (Some(f64::INFINITY), true),
    ] {
        let options =
            BorderGlassOptions { radius: radius.map(points), ..BorderGlassOptions::default() };
        let (done, _) = drive(started(apply_border_glass(true, options)), |_| true);
        assert_eq!(done.contains(&Action::SetLayerMasksToBounds(false)), rounded);
    }
}

#[test]
fn mask_is_the_whole_ring() {
    let done = drive_plan(create_border_mask(points(1.5), points(6.0)), |_| true);
    assert_eq!(done, mask_actions(1.5, 6.0, 6.0));
}

#[test]
fn inner_outline_has_no_negative_radius() {
    let done = drive_plan(create_border_mask(points(1.5), points(-6.0)), |_| true);
    assert_eq!(done, mask_actions(1.5, -6.0, 0.0));
}

#[test]
fn mask_stops_at_what_is_missing() {
    for (missing, taken) in [
        (Action::FetchLayer, 2),
        (Action::MakeShapeLayer, 4),
        (Action::MakePath(MaskPath::Outer), 6),
        (Action::MakePath(MaskPath::Inner), 8),
        (Action::FetchShapePath, 12),
    ] {
        let plan = create_border_mask(points(1.0), points(0.0));
        let done = drive_plan(plan, |action| action != missing);
        assert_eq!(done, mask_actions(1.0, 0.0, 0.0)[..taken].to_vec());
    }
}

#[test]
fn longest_apply_takes_fifty_four_actions() {
    let options = BorderGlassOptions {
        tint: Some((9, 9, 9, 9)),
        radius: Some(points(4.0)),
        ..BorderGlassOptions::default()
    };
    let (done, outcome) = drive(started(apply_border_glass(true, options)), |action| match action {
        Action::MakeGlassView => false,
        Action::OfferToGlass(_) => false,
        Action::RespondsTo(Selector::PrivateSetState) => false,
        Action::RespondsTo(Selector::PrivateSetIgnoresMouseEvents) => false,
        Action::RespondsTo(Selector::SetTintColor) => false,
        _ => true,
    });
    assert_eq!(done.len(), 54);
    assert_eq!(outcome, Outcome::Applied);
}

#[test]
fn plans_nest_and_end_early() {
    let inner = Plan { steps: vec![Step::Need(Action::FetchLayer), Step::Do(Action::JoinPaths)] };
    let attempt = Step::Attempt(Vec::new(), Plan { steps: vec![Step::Do(Action::SetShapePath)] });
    let plan = Plan {
        steps: vec![
            Step::Call(Plan::empty()),
            Step::Call(inner),
            attempt,
            Step::Do(Action::SetLayerMask),
            Step::Finish(Outcome::Cleared(true)),
            Step::Do(Action::SetShapeFrame),
        ],
    };
    let (done, outcome) = drive(Run::start(plan, Outcome::Applied), |_| false);
    assert_eq!(done, vec![Action::FetchLayer, Action::SetLayerMask]);
    assert_eq!(outcome, Outcome::Cleared(true));
}
