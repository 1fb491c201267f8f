//! Putting a border glass up and taking it down.
use crate::action::{Action, AssociationPolicy, Placement};
use crate::length::Length;
use crate::options::{BorderGlassOptions, Error};
use crate::plan::{Plan, Step};
use crate::run::Run;
use crate::script::{Outcome, Script};
use vstd::prelude::*;

verus! {

/// The key under which a container remembers its border.
pub const BORDER_GLASS_KEY: &'static str = "WindowVibrancyBorderGlassKey";

/// Puts the view on top of the container and remembers it.
pub open spec fn install_script(rest: Script) -> Script {
    Script::perform(
        Action::AddSubview(Placement::AboveAll),
        Script::perform(Action::RememberBorder(AssociationPolicy::Retain), rest),
    )
}

/// Rounds the corners where the radius is greater than zero.
pub open spec fn round_script(radius: Length, rest: Script) -> Script {
    if radius.exceeds_zero() {
        crate::appearance::corner_radius_script(radius, rest)
    } else {
        rest
    }
}

/// Makes the border view ready for the container, from its style to its mask.
pub open spec fn dress_script(options: BorderGlassOptions, rest: Script) -> Script {
    let radius = options.corner_radius();
    let masked = crate::mask::mask_script(options.border_width, radius, rest);
    let rounded = round_script(radius, masked);
    let let_through = crate::messages::ignores_mouse_events_script(true, rounded);
    let configured = crate::appearance::appearance_script(options, let_through);
    crate::messages::style_script(options.variant, configured)
}

/// Takes down the border glass that is there, and puts up another.
pub open spec fn apply_script(options: BorderGlassOptions) -> Script {
    let installed = install_script(Script::End(Outcome::Applied));
    let put_up = crate::creation::create_script(dress_script(options, installed));
    crate::removal::remove_script(put_up, put_up)
}

/// Takes the border glass down and tells whether there was one.
pub open spec fn clear_script() -> Script {
    crate::removal::remove_script(
        Script::End(Outcome::Cleared(true)),
        Script::End(Outcome::Cleared(false)),
    )
}

/// Whether a view is the border that the container remembers.
pub open spec fn is_border(associated: usize, view: usize) -> bool {
    associated != 0 && associated == view
}

fn dress(options: &BorderGlassOptions) -> (r: Plan)
    ensures
        forall|rest: Script| #[trigger] r.script(rest) == dress_script(*options, rest),
{
    let radius = match options.radius {
        Some(radius) => radius,
        None => Length::zero(),
    };
    let styled = crate::messages::set_border_glass_style(options.variant);
    let configured = crate::appearance::configure_border_glass_appearance(options);
    let let_through = crate::messages::set_border_view_ignores_mouse_events(true);
    let rounded = if radius.is_positive() {
        crate::appearance::apply_corner_radius_layer(radius)
    } else {
        Plan::empty()
    };
    let masked = crate::mask::create_border_mask(options.border_width, radius);
    let r = Plan {
        steps: vec![
            Step::Call(styled),
            Step::Call(configured),
            Step::Call(let_through),
            Step::Call(rounded),
            Step::Call(masked),
        ],
    };
    assert forall|rest: Script| #[trigger] r.script(rest) == dress_script(*options, rest) by {
        reveal_with_fuel(crate::plan::steps_script, 6);
        assert(r.script(rest) == styled.script(
            configured.script(let_through.script(rounded.script(masked.script(rest)))),
        ));
    }
    r
}

/// Starts putting a border glass over a container, in place of the one that is there.
///
/// Off the main thread nothing is started.
pub fn apply_border_glass(on_main_thread: bool, options: BorderGlassOptions) -> (r: Result<
    Run,
    Error,
>)
    ensures
        match r {
            Ok(run) => on_main_thread && run.script() == apply_script(options),
            Err(Error::NotMainThread(message)) => !on_main_thread && message@
                == "apply_border_glass must be called on main thread"@,
        },
{
    if !on_main_thread {
        return Err(Error::NotMainThread("apply_border_glass must be called on main thread"));
    }
    let removed = crate::removal::remove_existing_border_glass(Plan::empty(), Plan::empty());
    let created = crate::creation::create_border_view();
    let dressed = dress(&options);
    let plan = Plan {
        steps: vec![
            Step::Call(removed),
            Step::Call(created),
            Step::Call(dressed),
            Step::Do(Action::AddSubview(Placement::AboveAll)),
            Step::Do(Action::RememberBorder(AssociationPolicy::Retain)),
        ],
    };
    let run = Run::start(plan, Outcome::Applied);
    proof {
        reveal_with_fuel(crate::plan::steps_script, 6);
        let end = Script::End(Outcome::Applied);
        assert(plan.script(end) == removed.script(
            created.script(dressed.script(install_script(end))),
        ));
    }
    Ok(run)
}

/// Starts taking down the border glass of a container.
///
/// Off the main thread nothing is started.
pub fn clear_border_glass(on_main_thread: bool) -> (r: Result<Run, Error>)
    ensures
        match r {
            Ok(run) => on_main_thread && run.script() == clear_script(),
            Err(Error::NotMainThread(message)) => !on_main_thread && message@
                == "clear_border_glass must be called on main thread"@,
        },
{
    if !on_main_thread {
        return Err(Error::NotMainThread("clear_border_glass must be called on main thread"));
    }
    let removed = Plan { steps: vec![Step::Finish(Outcome::Cleared(true))] };
    let absent = Plan { steps: vec![Step::Finish(Outcome::Cleared(false))] };
    let plan = crate::removal::remove_existing_border_glass(removed, absent);
    proof {
        reveal_with_fuel(crate::plan::steps_script, 2);
    }
    Ok(Run::start(plan, Outcome::Cleared(false)))
}

/// Whether a view is the border glass of a container, by the address of the view and the
/// address that the container remembers, which is zero where it remembers none.
pub fn is_border_glass_view(associated: usize, view: usize) -> (r: bool)
    ensures
        r == is_border(associated, view),
{
    if associated == 0 {
        false
    } else {
        associated == view
    }
}

} // verus!
