//! What a caller asks of a border glass.
use crate::length::Length;
use vstd::arithmetic::power2::pow2;
use vstd::prelude::*;

verus! {

/// Red, green, blue and alpha, each from 0 to 255.
pub type Color = (u8, u8, u8, u8);

/// Why a border glass could not be put up or taken down.
#[derive(Clone, Copy, Debug, PartialEq, Eq)]
pub enum Error {
    /// The call came from another thread than the main one.
    NotMainThread(&'static str),
}

/// The look of the glass.
#[derive(Clone, Copy, Debug, PartialEq, Eq)]
pub enum NSGlassEffectVariant {
    Regular,
    Clear,
    /// A look that is known by its number alone.
    Other(i64),
}

impl NSGlassEffectVariant {
    /// The number by which the window system knows the look.
    pub open spec fn number(self) -> i64 {
        match self {
            NSGlassEffectVariant::Regular => 0,
            NSGlassEffectVariant::Clear => 1,
            NSGlassEffectVariant::Other(n) => n,
        }
    }

    /// The number by which the window system knows the look.
    pub fn as_i64(self) -> (r: i64)
        ensures
            r == self.number(),
    {
        match self {
            NSGlassEffectVariant::Regular => 0,
            NSGlassEffectVariant::Clear => 1,
            NSGlassEffectVariant::Other(n) => n,
        }
    }
}

/// When a view takes on its active look.
#[derive(Clone, Copy, Debug, PartialEq, Eq)]
pub enum NSVisualEffectState {
    /// While its window is active.
    FollowsWindowActiveState,
    /// Always.
    Active,
    /// Never.
    Inactive,
}

impl NSVisualEffectState {
    /// The number by which the window system knows the state.
    pub open spec fn number(self) -> i64 {
        match self {
            NSVisualEffectState::FollowsWindowActiveState => 0,
            NSVisualEffectState::Active => 1,
            NSVisualEffectState::Inactive => 2,
        }
    }

    /// The number by which the window system knows the state.
    pub fn as_i64(self) -> (r: i64)
        ensures
            r == self.number(),
    {
        match self {
            NSVisualEffectState::FollowsWindowActiveState => 0,
            NSVisualEffectState::Active => 1,
            NSVisualEffectState::Inactive => 2,
        }
    }
}

/// How a border glass looks.
#[derive(Clone, Copy, Debug, PartialEq, Eq)]
pub struct BorderGlassOptions {
    pub variant: NSGlassEffectVariant,
    pub tint: Option<Color>,
    /// The radius of the corners; zero where it is not given.
    pub radius: Option<Length>,
    pub border_width: Length,
    /// When the glass takes on its active look; with its window where it is not given.
    pub state: Option<NSVisualEffectState>,
}

impl BorderGlassOptions {
    /// The radius of the corners.
    pub open spec fn corner_radius(self) -> Length {
        match self.radius {
            Some(r) => r,
            None => Length { bits: 0 },
        }
    }

    /// The state that the glass is put in.
    pub open spec fn effective_state(self) -> NSVisualEffectState {
        match self.state {
            Some(s) => s,
            None => NSVisualEffectState::FollowsWindowActiveState,
        }
    }
}

impl Default for BorderGlassOptions {
    /// Clear glass, one point wide, with square corners and no tint.
    fn default() -> (r: Self)
        ensures
            r.variant == NSGlassEffectVariant::Clear,
            r.tint is None,
            r.radius is None,
            r.border_width == (Length { bits: 0x3ff0_0000_0000_0000 }),
            r.border_width.value() == 0x10_0000_0000_0000 * pow2(1022),
            r.state is None,
    {
        BorderGlassOptions {
            variant: NSGlassEffectVariant::Clear,
            tint: None,
            radius: None,
            border_width: Length::one(),
            state: None,
        }
    }
}

} // verus!
