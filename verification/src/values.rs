//! What holds of lengths, numbers, rectangles, colours and selectors.
use crate::action::{MaskRect, Selector};
use crate::length::Length;
use crate::options::{BorderGlassOptions, Color, NSGlassEffectVariant, NSVisualEffectState};
use vstd::arithmetic::power2::{lemma2_to64, lemma_pow2_pos, lemma_pow2_unfold, pow2};
use vstd::prelude::*;

verus! {

/// The lengths greater than zero are those whose bits lie above the bits of zero and not
/// above those of infinity.
pub proof fn law_positive_lengths_by_bits(length: Length)
    ensures
        length.exceeds_zero() <==> 0 < length.bits <= 0x7ff0_0000_0000_0000,
{
    if length.exponent() != 0 {
        let scale = pow2((length.exponent() - 1) as nat) as int;
        lemma_pow2_pos((length.exponent() - 1) as nat);
        assert((0x10_0000_0000_0000 + length.fraction()) * scale > 0) by (nonlinear_arith)
            requires
                length.fraction() >= 0,
                scale > 0,
        ;
    }
}

/// Cutting off at zero keeps a length that is greater than zero, and gives zero for every
/// other.
pub proof fn law_cut_off_at_zero(length: Length)
    ensures
        0 < length.bits <= 0x7ff0_0000_0000_0000 ==> length.at_least_zero() == length,
        !(0 < length.bits <= 0x7ff0_0000_0000_0000) ==> length.at_least_zero().bits == 0,
{
    law_positive_lengths_by_bits(length);
}

/// Small lengths count in units of the smallest positive one.
pub proof fn law_value_of_small_lengths(length: Length)
    requires
        length.bits < 0x20_0000_0000_0000,
    ensures
        length.value() == length.bits,
{
    if length.exponent() != 0 {
        assert(length.exponent() == 1);
        lemma2_to64();
        let scale = pow2((length.exponent() - 1) as nat) as int;
        let significand = 0x10_0000_0000_0000 + length.fraction();
        assert(scale == 1);
        assert(significand * scale == significand) by (nonlinear_arith)
            requires
                scale == 1,
        ;
    }
}

/// One more in the exponent doubles a length.
pub proof fn law_exponent_doubles(length: Length, next: Length)
    requires
        0x10_0000_0000_0000 <= length.bits < 0x7fe0_0000_0000_0000,
        next.bits == length.bits + 0x10_0000_0000_0000,
    ensures
        next.value() == 2 * length.value(),
{
    let e = length.exponent();
    assert(next.exponent() == e + 1 && next.fraction() == length.fraction());
    lemma_pow2_unfold(e as nat);
    let scale = pow2((e - 1) as nat) as int;
    let significand = 0x10_0000_0000_0000 + length.fraction();
    assert(significand * (2 * scale) == 2 * (significand * scale)) by (nonlinear_arith);
}

/// The sign bit turns a length into its opposite.
pub proof fn law_sign_negates(length: Length, opposite: Length)
    requires
        length.bits < 0x8000_0000_0000_0000,
        opposite.bits == length.bits + 0x8000_0000_0000_0000,
    ensures
        opposite.value() == -length.value(),
        opposite.is_nan() == length.is_nan(),
        opposite.is_infinite() == length.is_infinite(),
{
    assert(opposite.exponent() == length.exponent());
    assert(opposite.fraction() == length.fraction());
}

/// A look that is named has its place in the window system's list, and any other keeps the
/// number that it was given.
pub proof fn law_variant_numbers(number: i64)
    ensures
        NSGlassEffectVariant::Regular.number() == 0,
        NSGlassEffectVariant::Clear.number() == 1,
        NSGlassEffectVariant::Other(number).number() == number,
{
}

/// The states keep the order of the window system's list, and no two share a number.
pub proof fn law_state_numbers(one: NSVisualEffectState, other: NSVisualEffectState)
    ensures
        0 <= one.number() <= 2,
        one.number() == 0 <==> one == NSVisualEffectState::FollowsWindowActiveState,
        one.number() == 1 <==> one == NSVisualEffectState::Active,
        one.number() == other.number() ==> one == other,
{
}

/// What is asked for is what counts: the radius and the state as they are given, and only
/// where they are not, square corners and the state of the window.
pub proof fn law_options_are_taken_as_given(
    options: BorderGlassOptions,
    radius: Length,
    state: NSVisualEffectState,
)
    ensures
        options.radius == Some(radius) ==> options.corner_radius() == radius,
        options.radius is None ==> options.corner_radius().bits == 0,
        options.state == Some(state) ==> options.effective_state() == state,
        options.state is None ==> options.effective_state()
            == NSVisualEffectState::FollowsWindowActiveState,
{
}

/// The inner rectangle keeps its distance, one border width, from each edge of the layer;
/// the outer one has its corner at the layer's and gives nothing up.
pub proof fn law_rectangles_of_the_ring(border_width: Length)
    ensures
        MaskRect::spec_within(border_width).x == border_width,
        MaskRect::spec_within(border_width).y == border_width,
        MaskRect::spec_within(border_width).inset == border_width,
        MaskRect::spec_within(border_width).insets == 2,
        MaskRect::spec_whole().x.bits == 0,
        MaskRect::spec_whole().y.bits == 0,
        MaskRect::spec_whole().inset.bits == 0,
        MaskRect::spec_whole().insets == 0,
{
}

/// Each component of a colour goes, out of 255, to the component of the same name.
pub proof fn law_components_keep_their_places(color: Color)
    ensures
        crate::appearance::components(color).red.numerator == color.0,
        crate::appearance::components(color).green.numerator == color.1,
        crate::appearance::components(color).blue.numerator == color.2,
        crate::appearance::components(color).alpha.numerator == color.3,
        crate::appearance::components(color).red.denominator == 255,
        crate::appearance::components(color).green.denominator == 255,
        crate::appearance::components(color).blue.denominator == 255,
        crate::appearance::components(color).alpha.denominator == 255,
{
}

/// A view is the border exactly if it has the address that the container remembers, and
/// the container remembers one.
pub proof fn law_border_goes_by_address(associated: usize, view: usize)
    ensures
        crate::border_glass::is_border(associated, view) <==> associated == view && view != 0,
{
}

/// Selectors are setters of one argument: each is spelled `set`, a name and a colon. The
/// private ones have an underscore before the name, and no two are spelled alike.
pub proof fn law_selectors_are_spelled_as_setters(one: Selector, other: Selector)
    ensures
        one.spelling() == "set"@ + match one {
            Selector::SetStyle => "Style"@,
            Selector::PrivateSetState => "_state"@,
            Selector::SetState => "State"@,
            Selector::PrivateSetIgnoresMouseEvents => "_ignoresMouseEvents"@,
            Selector::SetIgnoresMouseEvents => "IgnoresMouseEvents"@,
            Selector::SetTintColor => "TintColor"@,
        } + ":"@,
        one.spelling() == other.spelling() ==> one == other,
{
    reveal_strlit("set");
    reveal_strlit(":");
    reveal_strlit("Style");
    reveal_strlit("_state");
    reveal_strlit("State");
    reveal_strlit("_ignoresMouseEvents");
    reveal_strlit("IgnoresMouseEvents");
    reveal_strlit("TintColor");
    reveal_strlit("setStyle:");
    reveal_strlit("set_state:");
    reveal_strlit("setState:");
    reveal_strlit("set_ignoresMouseEvents:");
    reveal_strlit("setIgnoresMouseEvents:");
    reveal_strlit("setTintColor:");
    assert(one.spelling()[4] != other.spelling()[4] || one.spelling()[5] != other.spelling()[5]
        || one.spelling().len() != other.spelling().len() || one == other);
}

} // verus!
