//! A border made of glass for a macOS view.
//!
//! A border glass is an extra view laid over a container view and cut down by a
//! layer mask to a ring along its edges. Putting one up takes some fifty calls into
//! the window system, and many of them depend on what earlier ones reported: whether
//! the glass class exists, whether a view answers to a selector, whether a layer
//! could be had. This library holds every one of those decisions and none of the
//! calls.
//!
//! [`apply_border_glass`] and [`clear_border_glass`] start a [`Run`]. A run names
//! the next [`Action`] to perform, is told what the action reported, and goes on from
//! there until it has an [`Outcome`]. What a run does, for whatever it is told, is
//! given by its [`Script`], a decision tree.

pub mod length;
pub mod options;
pub mod action;
pub mod script;
pub mod plan;
pub mod run;
pub mod messages;
pub mod removal;
pub mod creation;
pub mod appearance;
pub mod mask;
pub mod border_glass;
pub mod scene;
pub mod laws;
pub mod values;
pub mod traces;
pub mod stages;
pub mod choices;

pub use action::{
    Action, AssociationPolicy, Autoresizing, BlendingMode, Fraction, GlassProperty, MaskPath,
    MaskRect, Material, NSColorComponents, Payload, Placement, Selector, ViewClass, WindingRule,
};
pub use border_glass::{
    apply_border_glass, clear_border_glass, is_border_glass_view, BORDER_GLASS_KEY,
};
pub use length::Length;
pub use options::{BorderGlassOptions, Color, Error, NSGlassEffectVariant, NSVisualEffectState};
pub use plan::{Plan, Step};
pub use run::{Progress, Run};
pub use scene::Scene;
pub use script::{Outcome, Script};
