//! Lengths, colours, selectors and numbers.
use border_glass::appearance::color_to_nscolor;
use border_glass::{
    AssociationPolicy, BorderGlassOptions, Fraction, Length, MaskRect, NSGlassEffectVariant,
    NSVisualEffectState, Selector, WindingRule, BORDER_GLASS_KEY,
};

const SAMPLES: [f64; 14] = [
    0.0,
    -0.0,
    1.0,
    -1.0,
    0.5,
    1e300,
    -1e300,
    5e-324,
    -5e-324,
    f64::MIN_POSITIVE,
    f64::MAX,
    f64::INFINITY,
    f64::NEG_INFINITY,
    f64::NAN,
];

fn points(x: f64) -> Length {
    Length { bits: x.to_bits() }
}

fn number(length: Length) -> f64 {
    f64::from_bits(length.bits)
}

#[test]
fn default_options() {
    let options = BorderGlassOptions::default();
    assert_eq!(options.variant, NSGlassEffectVariant::Clear);
    assert_eq!(options.tint, None);
    assert_eq!(options.radius, None);
    assert_eq!(options.border_width, points(1.0));
    assert_eq!(options.state, None);
}

#[test]
fn positive_lengths() {
    for x in SAMPLES {
        assert_eq!(points(x).is_positive(), x > 0.0);
    }
    assert!(!points(-f64::NAN).is_positive());
}

#[test]
fn lengths_cut_off_at_zero() {
    for x in SAMPLES {
        assert_eq!(number(points(x).max_zero()), x.max(0.0));
    }
}

#[test]
fn named_lengths() {
    assert_eq!(Length::zero(), points(0.0));
    assert_eq!(Length::one(), points(1.0));
}

#[test]
fn color_components() {
    let color = color_to_nscolor((0, 51, 128, 255));
    assert_eq!(color.red, Fraction { numerator: 0, denominator: 255 });
    let value = |f: Fraction| f64::from(f.numerator) / f64::from(f.denominator);
    assert_eq!(value(color.red), 0.0);
    assert_eq!(value(color.green), 0.2);
    assert_eq!(value(color.blue), 128.0 / 255.0);
    assert_eq!(value(color.alpha), 1.0);
}

#[test]
fn colors_stay_apart() {
    assert_ne!(color_to_nscolor((1, 2, 3, 4)), color_to_nscolor((2, 1, 3, 4)));
    assert_ne!(color_to_nscolor((1, 2, 3, 4)), color_to_nscolor((1, 2, 4, 3)));
}

#[test]
fn ring_is_even() {
    let rect = MaskRect::within(points(3.0));
    let side = 100.0;
    let extent = side - number(rect.inset) * f64::from(rect.insets);
    assert_eq!(extent, 94.0);
    assert_eq!(number(rect.x), 3.0);
    assert_eq!(number(rect.y), 3.0);
    assert_eq!(side - (number(rect.x) + extent), 3.0);
    let whole = MaskRect::whole();
    assert_eq!(number(whole.x), 0.0);
    assert_eq!(side - number(whole.inset) * f64::from(whole.insets), side);
}

#[test]
fn selector_names() {
    let names = [
        (Selector::SetStyle, "setStyle:"),
        (Selector::PrivateSetState, "set_state:"),
        (Selector::SetState, "setState:"),
        (Selector::PrivateSetIgnoresMouseEvents, "set_ignoresMouseEvents:"),
        (Selector::SetIgnoresMouseEvents, "setIgnoresMouseEvents:"),
        (Selector::SetTintColor, "setTintColor:"),
    ];
    for (selector, name) in names {
        assert_eq!(selector.name(), name);
    }
}

#[test]
fn numbers_of_the_window_system() {
    assert_eq!(NSVisualEffectState::FollowsWindowActiveState.as_i64(), 0);
    assert_eq!(NSVisualEffectState::Active.as_i64(), 1);
    assert_eq!(NSVisualEffectState::Inactive.as_i64(), 2);
    assert_eq!(NSGlassEffectVariant::Regular.as_i64(), 0);
    assert_eq!(NSGlassEffectVariant::Clear.as_i64(), 1);
    assert_eq!(NSGlassEffectVariant::Other(-4).as_i64(), -4);
    assert_eq!(WindingRule::EvenOdd.number(), 1);
    assert_eq!(AssociationPolicy::Retain.number(), 0x301);
    assert_eq!(BORDER_GLASS_KEY, "WindowVibrancyBorderGlassKey");
}
