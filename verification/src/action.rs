//! The calls into the window system that a run asks for.
use crate::length::Length;
use crate::options::{NSGlassEffectVariant, NSVisualEffectState};
use vstd::prelude::*;

verus! {

/// A message that views may or may not answer to.
#[derive(Clone, Copy, Debug, PartialEq, Eq)]
pub enum Selector {
    SetStyle,
    /// The private form of `SetState`.
    PrivateSetState,
    SetState,
    /// The private form of `SetIgnoresMouseEvents`.
    PrivateSetIgnoresMouseEvents,
    SetIgnoresMouseEvents,
    SetTintColor,
}

impl Selector {
    /// The selector as the runtime spells it.
    pub open spec fn spelling(self) -> Seq<char> {
        match self {
            Selector::SetStyle => "setStyle:"@,
            Selector::PrivateSetState => "set_state:"@,
            Selector::SetState => "setState:"@,
            Selector::PrivateSetIgnoresMouseEvents => "set_ignoresMouseEvents:"@,
            Selector::SetIgnoresMouseEvents => "setIgnoresMouseEvents:"@,
            Selector::SetTintColor => "setTintColor:"@,
        }
    }

    /// The selector as the runtime spells it.
    pub fn name(self) -> (r: &'static str)
        ensures
            r@ == self.spelling(),
    {
        match self {
            Selector::SetStyle => "setStyle:",
            Selector::PrivateSetState => "set_state:",
            Selector::SetState => "setState:",
            Selector::PrivateSetIgnoresMouseEvents => "set_ignoresMouseEvents:",
            Selector::SetIgnoresMouseEvents => "setIgnoresMouseEvents:",
            Selector::SetTintColor => "setTintColor:",
        }
    }
}

/// The one argument of a message.
#[derive(Clone, Copy, Debug, PartialEq, Eq)]
pub enum Payload {
    Integer(isize),
    Boolean(bool),
}

/// A property that a glass view is asked to take by its own setter.
#[derive(Clone, Copy, Debug, PartialEq, Eq)]
pub enum GlassProperty {
    StyleVariant(NSGlassEffectVariant),
    State(NSVisualEffectState),
    IgnoresMouseEvents(bool),
}

/// The number `numerator / denominator`.
#[derive(Clone, Copy, Debug, PartialEq, Eq)]
pub struct Fraction {
    pub numerator: u8,
    pub denominator: u8,
}

/// The components of a colour, each from zero to one.
#[derive(Clone, Copy, Debug, PartialEq, Eq)]
pub struct NSColorComponents {
    pub red: Fraction,
    pub green: Fraction,
    pub blue: Fraction,
    pub alpha: Fraction,
}

/// The classes a border glass can be made of.
#[derive(Clone, Copy, Debug, PartialEq, Eq)]
pub enum ViewClass {
    Glass,
    VisualEffect,
}

/// The sides of a view that follow its superview's.
#[derive(Clone, Copy, Debug, PartialEq, Eq)]
pub struct Autoresizing {
    pub width: bool,
    pub height: bool,
}

/// What a visual effect view blends with.
#[derive(Clone, Copy, Debug, PartialEq, Eq)]
pub enum BlendingMode {
    /// What lies behind the window.
    BehindWindow,
}

/// What a visual effect view looks like.
#[derive(Clone, Copy, Debug, PartialEq, Eq)]
pub enum Material {
    UnderWindowBackground,
}

/// Where among its siblings a subview goes.
#[derive(Clone, Copy, Debug, PartialEq, Eq)]
pub enum Placement {
    /// In front of all of them.
    AboveAll,
}

/// How the inside of a path is told from its outside.
#[derive(Clone, Copy, Debug, PartialEq, Eq)]
pub enum WindingRule {
    /// What lies inside an odd number of outlines is inside.
    EvenOdd,
}

impl WindingRule {
    /// The number by which the window system knows the rule.
    pub fn number(self) -> (r: usize)
        ensures
            r == 1,
    {
        match self {
            WindingRule::EvenOdd => 1,
        }
    }
}

/// How an object holds on to a value that is associated with it.
#[derive(Clone, Copy, Debug, PartialEq, Eq)]
pub enum AssociationPolicy {
    /// By a strong reference.
    Retain,
}

impl AssociationPolicy {
    /// The number by which the runtime knows the policy.
    pub fn number(self) -> (r: usize)
        ensures
            r == 0x301,
    {
        match self {
            AssociationPolicy::Retain => 0x301,
        }
    }
}

/// The two outlines of the ring.
#[derive(Clone, Copy, Debug, PartialEq, Eq)]
pub enum MaskPath {
    Outer,
    Inner,
}

/// A rectangle inside a layer.
///
/// Its corner lies at `x`, `y`. Its width is the layer's, less `insets` times
/// `inset`; so is its height.
#[derive(Clone, Copy, Debug, PartialEq, Eq)]
pub struct MaskRect {
    pub x: Length,
    pub y: Length,
    pub inset: Length,
    pub insets: u8,
}

impl MaskRect {
    /// The layer from edge to edge.
    pub open spec fn spec_whole() -> MaskRect {
        MaskRect {
            x: Length { bits: 0 },
            y: Length { bits: 0 },
            inset: Length { bits: 0 },
            insets: 0,
        }
    }

    /// What is left of the layer within a border of the given width: the corner moves
    /// in by one border, and each side gives up two.
    pub open spec fn spec_within(border_width: Length) -> MaskRect {
        MaskRect { x: border_width, y: border_width, inset: border_width, insets: 2 }
    }

    /// The width, or the height, of the rectangle in a layer whose own is `side`, in exact
    /// arithmetic.
    pub open spec fn extent(self, side: int) -> int {
        side - self.insets * self.inset.value()
    }

    /// How far the side of the layer, of length `side`, goes on beyond the rectangle.
    pub open spec fn far_gap(self, side: int) -> int {
        side - (self.x.value() + self.extent(side))
    }

    /// The layer from edge to edge.
    pub fn whole() -> (r: MaskRect)
        ensures
            r == MaskRect::spec_whole(),
    {
        MaskRect { x: Length::zero(), y: Length::zero(), inset: Length::zero(), insets: 0 }
    }

    /// What is left of the layer within a border of the given width.
    pub fn within(border_width: Length) -> (r: MaskRect)
        ensures
            r == MaskRect::spec_within(border_width),
    {
        MaskRect { x: border_width, y: border_width, inset: border_width, insets: 2 }
    }
}

/// One call into the window system.
///
/// Each reports a truth value back. Where nothing is said of it, the run takes no
/// notice of what is reported. "The border" is the view that the container remembers
/// as its border glass, and "the view" is the one that the run puts up. Objects that
/// an action fetches or makes stay with whoever performs the action.
#[derive(Clone, Copy, Debug, PartialEq, Eq)]
pub enum Action {
    /// Look up the border. Reports whether there is one.
    FindBorder,
    /// Take hold of the border that was found. Reports whether that succeeded.
    RetainBorder,
    /// Take the border out of its superview.
    DetachBorder,
    /// Have the container remember no border.
    ForgetBorder(AssociationPolicy),
    /// Read the bounds of the container.
    ReadContainerBounds,
    /// Make the view, as large as the container, of the glass class. Reports whether
    /// that succeeded.
    MakeGlassView,
    /// Make the view, as large as the container, of the visual effect class.
    MakeVisualEffectView,
    /// Set how the view, of the given class, is resized.
    SetAutoresizing(ViewClass, Autoresizing),
    SetBlendingMode(BlendingMode),
    SetMaterial(Material),
    SetVisualEffectState(NSVisualEffectState),
    /// Report whether the glass class exists.
    IsGlassAvailable,
    /// Take hold of the view as a glass view. Reports whether that succeeded.
    RetainGlass,
    /// Set a property by the setter of the glass view. Reports whether it was taken.
    OfferToGlass(GlassProperty),
    /// Report whether the view answers to a message.
    RespondsTo(Selector),
    /// Send a message to the view.
    Send(Selector, Payload),
    /// Make a colour.
    MakeColor(NSColorComponents),
    /// Send a message to the view, with the colour as its argument.
    SendColor(Selector),
    /// Tell the view whether it wants a layer.
    SetWantsLayer(bool),
    /// Fetch the layer of the view. Reports whether there is one.
    FetchLayer,
    /// Take the plain colour value of the colour.
    MakeLayerColor,
    /// Fill the background of the layer with that value.
    SetLayerBackground,
    SetLayerCornerRadius(Length),
    SetLayerMasksToBounds(bool),
    /// Read the bounds of the layer.
    ReadLayerBounds,
    /// Make a shape layer. Reports whether there is one.
    MakeShapeLayer,
    /// Give the shape layer the bounds of the layer for its frame.
    SetShapeFrame,
    /// Make an empty path. Reports whether there is one.
    MakePath(MaskPath),
    /// Add a rectangle to a path, its corners rounded by the given radius.
    AppendRoundedRect(MaskPath, MaskRect, Length),
    /// Add the inner path to the outer one.
    JoinPaths,
    /// Set the winding rule of the outer path.
    SetWindingRule(WindingRule),
    /// Take the outer path as a plain path value. Reports whether there is one.
    FetchShapePath,
    /// Give the shape layer that value for its path.
    SetShapePath,
    /// Make the shape layer the mask of the layer.
    SetLayerMask,
    /// Put the view into the container.
    AddSubview(Placement),
    /// Have the container remember the view as its border.
    RememberBorder(AssociationPolicy),
}

} // verus!
