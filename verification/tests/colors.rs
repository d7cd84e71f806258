use stat_bars::bar::{Statbar, StatbarBorder};
use stat_bars::color::{Color, ColorSpec, Hsla, Rgba};
use stat_bars::ease::cosine_ease;
use stat_bars::effects::{StatbarColorLerp, StatbarColorSwitch};
use stat_bars::geometry::Anchor;
use stat_bars::scalar::Scalar;
use stat_bars::vector::{Rotation, Vec2};

type Plain = fn(Color, Color, Scalar) -> Color;

fn micros(n: i64) -> Scalar {
    Scalar::from_micros(n)
}

fn rgba(red: i64, green: i64, blue: i64, alpha: i64) -> Rgba {
    Rgba { red: micros(red), green: micros(green), blue: micros(blue), alpha: micros(alpha) }
}

fn hsla(hue: i64, saturation: i64, lightness: i64, alpha: i64) -> Hsla {
    Hsla {
        hue: micros(hue),
        saturation: micros(saturation),
        lightness: micros(lightness),
        alpha: micros(alpha),
    }
}

fn low() -> Rgba {
    rgba(900_000, 100_000, -200_000, 1_000_000)
}

fn high() -> Rgba {
    rgba(100_000, 700_001, 600_000, 0)
}

#[test]
fn fixed_rule_gives_its_colour() {
    let rule: ColorSpec<Plain> = ColorSpec::Fixed(Color::yellow());
    for value in [-5_000_000, 0, 123_456, 1_000_000, 9_000_000] {
        assert_eq!(rule.evaluate(micros(value)), Color::yellow());
    }
}

#[test]
fn linear_blend_reaches_both_ends_exactly() {
    let rule: ColorSpec<Plain> = ColorSpec::LinearLerp { min: low(), max: high() };
    assert_eq!(rule.evaluate(micros(0)), Color::Rgba(low()));
    assert_eq!(rule.evaluate(micros(1_000_000)), Color::Rgba(high()));
    let extreme: ColorSpec<Plain> = ColorSpec::LinearLerp {
        min: rgba(i64::MIN, i64::MAX, 0, 1),
        max: rgba(i64::MAX, i64::MIN, -1, 0),
    };
    assert_eq!(extreme.evaluate(micros(0)), Color::Rgba(rgba(i64::MIN, i64::MAX, 0, 1)));
    assert_eq!(extreme.evaluate(micros(1_000_000)), Color::Rgba(rgba(i64::MAX, i64::MIN, -1, 0)));
}

#[test]
fn value_is_held_within_the_unit_interval() {
    let rule: ColorSpec<Plain> = ColorSpec::LinearLerp { min: low(), max: high() };
    assert_eq!(rule.evaluate(micros(-1)), Color::Rgba(low()));
    assert_eq!(rule.evaluate(micros(i64::MIN)), Color::Rgba(low()));
    assert_eq!(rule.evaluate(micros(1_000_001)), Color::Rgba(high()));
    assert_eq!(rule.evaluate(micros(i64::MAX)), Color::Rgba(high()));
}

#[test]
fn linear_blend_in_between() {
    let rule: ColorSpec<Plain> = ColorSpec::LinearLerp { min: low(), max: high() };
    assert_eq!(
        rule.evaluate(micros(250_000)),
        Color::Rgba(rgba(700_000, 250_000, 0, 750_000))
    );
    assert_eq!(
        rule.evaluate(micros(500_000)),
        Color::Rgba(rgba(500_000, 400_000, 200_000, 500_000))
    );
}

#[test]
fn cosine_blend_follows_the_ramp() {
    let rule: ColorSpec<Plain> = ColorSpec::CosineLerp { min: low(), max: high() };
    assert_eq!(rule.evaluate(micros(0)), Color::Rgba(low()));
    assert_eq!(rule.evaluate(micros(1_000_000)), Color::Rgba(high()));
    // At a quarter the ramp is at 0.146447.
    assert_eq!(cosine_ease(micros(250_000)), micros(146_447));
    assert_eq!(
        rule.evaluate(micros(250_000)),
        Color::Rgba(rgba(782_843, 187_868, -82_843, 853_553))
    );
}

#[test]
fn cosine_and_linear_blend_differ_off_the_middle() {
    let linear: ColorSpec<Plain> = ColorSpec::LinearLerp { min: low(), max: high() };
    let cosine: ColorSpec<Plain> = ColorSpec::CosineLerp { min: low(), max: high() };
    assert_ne!(linear.evaluate(micros(250_000)), cosine.evaluate(micros(250_000)));
    assert_ne!(linear.evaluate(micros(750_000)), cosine.evaluate(micros(750_000)));
    // The ramp passes through one half at one half: there the two agree.
    assert_eq!(linear.evaluate(micros(500_000)), cosine.evaluate(micros(500_000)));
}

#[test]
fn cosine_and_linear_blend_agree_on_equal_ends() {
    let linear: ColorSpec<Plain> = ColorSpec::LinearLerp { min: low(), max: low() };
    let cosine: ColorSpec<Plain> = ColorSpec::CosineLerp { min: low(), max: low() };
    for value in [0, 1, 250_000, 500_000, 999_999, 1_000_000] {
        assert_eq!(linear.evaluate(micros(value)), Color::Rgba(low()));
        assert_eq!(cosine.evaluate(micros(value)), Color::Rgba(low()));
    }
}

#[test]
fn hue_is_blended_the_long_way_round() {
    let min = hsla(350_000_000, 1_000_000, 500_000, 1_000_000);
    let max = hsla(10_000_000, 0, 500_000, 0);
    let linear: ColorSpec<Plain> = ColorSpec::LinearLerpHsl { min, max };
    assert_eq!(
        linear.evaluate(micros(500_000)),
        Color::Hsla(hsla(180_000_000, 500_000, 500_000, 500_000))
    );
    assert_eq!(linear.evaluate(micros(0)), Color::Hsla(min));
    assert_eq!(linear.evaluate(micros(1_000_000)), Color::Hsla(max));
    let cosine: ColorSpec<Plain> = ColorSpec::CosineLerpHsl { min, max };
    assert_eq!(
        cosine.evaluate(micros(250_000)),
        Color::Hsla(hsla(300_208_020, 853_553, 500_000, 853_553))
    );
    assert_eq!(cosine.evaluate(micros(-1)), Color::Hsla(min));
    assert_eq!(cosine.evaluate(micros(2_000_000)), Color::Hsla(max));
}

fn pick(min: Color, max: Color, value: Scalar) -> Color {
    if value.lt(Scalar::from_micros(500_000)) {
        min
    } else if value.lt(Scalar::one()) {
        max
    } else {
        Color::rgba(value, value, value, Scalar::from_micros(7_000_000))
    }
}

#[test]
fn custom_rule_is_handed_the_ends_and_the_held_value() {
    let rule: ColorSpec<Plain> =
        ColorSpec::Custom { min: Color::red(), max: Color::green(), calculate: pick };
    assert_eq!(rule.evaluate(micros(-3)), Color::red());
    assert_eq!(rule.evaluate(micros(499_999)), Color::red());
    assert_eq!(rule.evaluate(micros(500_000)), Color::green());
    // The value is held at one before the call; the result is not held.
    assert_eq!(
        rule.evaluate(micros(5_000_000)),
        Color::Rgba(rgba(1_000_000, 1_000_000, 1_000_000, 7_000_000))
    );
}

#[test]
fn custom_rule_colours_the_full_part() {
    let bar: Statbar<Plain> = Statbar {
        color: ColorSpec::Custom { min: Color::red(), max: Color::green(), calculate: pick },
        value: micros(600_000),
        ..Statbar::default()
    };
    let rects = bar.build(Anchor::origin(), Scalar::zero());
    assert_eq!(rects.len(), 2);
    assert_eq!(rects[1].color, Color::green());
}

#[test]
fn set_min_and_set_max_replace_the_ends() {
    let mut rule: ColorSpec<Plain> = ColorSpec::LinearLerp { min: low(), max: high() };
    assert!(rule.set_min(Color::Rgba(high())));
    assert!(rule.set_max(Color::Rgba(low())));
    assert_eq!(rule.evaluate(micros(0)), Color::Rgba(high()));
    assert_eq!(rule.evaluate(micros(1_000_000)), Color::Rgba(low()));

    let mut rule: ColorSpec<Plain> = ColorSpec::CosineLerpHsl {
        min: hsla(0, 0, 0, 0),
        max: hsla(1, 1, 1, 1),
    };
    assert!(rule.set_min(Color::Hsla(hsla(5, 6, 7, 8))));
    assert!(rule.set_max(Color::Hsla(hsla(9, 10, 11, 12))));
    assert_eq!(rule.evaluate(micros(0)), Color::Hsla(hsla(5, 6, 7, 8)));
    assert_eq!(rule.evaluate(micros(1_000_000)), Color::Hsla(hsla(9, 10, 11, 12)));

    let mut rule: ColorSpec<Plain> =
        ColorSpec::Custom { min: Color::red(), max: Color::green(), calculate: pick };
    assert!(rule.set_min(Color::yellow()));
    assert!(rule.set_max(Color::Hsla(hsla(1, 2, 3, 4))));
    assert_eq!(rule.evaluate(micros(0)), Color::yellow());
    assert_eq!(rule.evaluate(micros(500_000)), Color::Hsla(hsla(1, 2, 3, 4)));
}

#[test]
fn set_min_and_set_max_leave_a_fixed_rule() {
    let mut rule: ColorSpec<Plain> = ColorSpec::Fixed(Color::white());
    assert!(!rule.set_min(Color::red()));
    assert!(!rule.set_max(Color::green()));
    assert_eq!(rule.evaluate(micros(0)), Color::white());
    assert_eq!(rule.evaluate(micros(1_000_000)), Color::white());
}

#[test]
fn a_blend_takes_ends_of_its_own_colour_space_only() {
    let mut rule: ColorSpec<Plain> = ColorSpec::LinearLerp { min: low(), max: high() };
    assert!(!rule.set_min(Color::Hsla(hsla(1, 2, 3, 4))));
    assert!(!rule.set_max(Color::Hsla(hsla(1, 2, 3, 4))));
    assert_eq!(rule.evaluate(micros(0)), Color::Rgba(low()));
    assert_eq!(rule.evaluate(micros(1_000_000)), Color::Rgba(high()));

    let mut rule: ColorSpec<Plain> =
        ColorSpec::LinearLerpHsl { min: hsla(0, 0, 0, 0), max: hsla(1, 1, 1, 1) };
    assert!(!rule.set_min(Color::red()));
    assert!(!rule.set_max(Color::green()));
    assert_eq!(rule.evaluate(micros(0)), Color::Hsla(hsla(0, 0, 0, 0)));
    assert_eq!(rule.evaluate(micros(1_000_000)), Color::Hsla(hsla(1, 1, 1, 1)));
}

#[test]
fn rule_can_be_cloned() {
    let rule: ColorSpec<Plain> = ColorSpec::CosineLerp { min: low(), max: high() };
    let copy = rule.clone();
    assert_eq!(copy.evaluate(micros(250_000)), rule.evaluate(micros(250_000)));
    let custom: ColorSpec<Plain> =
        ColorSpec::Custom { min: Color::red(), max: Color::green(), calculate: pick };
    assert_eq!(custom.clone().evaluate(micros(700_000)), Color::green());
}

#[test]
fn named_colours() {
    assert_eq!(Color::red(), Color::Rgba(rgba(1_000_000, 0, 0, 1_000_000)));
    assert_eq!(Color::green(), Color::Rgba(rgba(0, 1_000_000, 0, 1_000_000)));
    assert_eq!(Color::yellow(), Color::Rgba(rgba(1_000_000, 1_000_000, 0, 1_000_000)));
    assert_eq!(Color::white(), Color::Rgba(rgba(1_000_000, 1_000_000, 1_000_000, 1_000_000)));
    assert_eq!(
        Color::rgba(micros(1), micros(2), micros(3), micros(4)),
        Color::Rgba(rgba(1, 2, 3, 4))
    );
    assert_eq!(
        Color::hsla(micros(1), micros(2), micros(3), micros(4)),
        Color::Hsla(hsla(1, 2, 3, 4))
    );
}

#[test]
fn color_switch_turns_at_the_pivot() {
    let rule = StatbarColorSwitch::new(micros(330_000), Color::red(), Color::green());
    assert_eq!(rule.color_at(micros(329_999)), Color::red());
    assert_eq!(rule.color_at(micros(330_000)), Color::red());
    assert_eq!(rule.color_at(micros(330_001)), Color::green());
    let mut bar: Statbar<Plain> = Statbar { value: micros(400_000), ..Statbar::default() };
    rule.apply(&mut bar);
    assert_eq!(bar.color.evaluate(bar.value), Color::green());
    assert_eq!(bar.value, micros(400_000));
}

#[test]
fn color_lerp_blends_by_the_value() {
    let rule = StatbarColorLerp::new(low(), high());
    assert_eq!(rule.color_at(micros(0)), Color::Rgba(low()));
    assert_eq!(rule.color_at(micros(1_000_000)), Color::Rgba(high()));
    assert_eq!(rule.color_at(micros(-1)), Color::Rgba(low()));
    assert_eq!(rule.color_at(micros(250_000)), Color::Rgba(rgba(700_000, 250_000, 0, 750_000)));
    let mut bar: Statbar<Plain> = Statbar { value: micros(250_000), ..Statbar::default() };
    rule.apply(&mut bar);
    assert_eq!(
        bar.color.evaluate(micros(0)),
        Color::Rgba(rgba(700_000, 250_000, 0, 750_000))
    );
}

#[test]
fn defaults() {
    let bar: Statbar<Plain> = Statbar::default();
    assert_eq!(bar.color.evaluate(micros(0)), Color::yellow());
    assert_eq!(bar.empty_color, Color::rgb_micros(200_000, 200_000, 0));
    assert_eq!(bar.length, Scalar::from_units(100));
    assert_eq!(bar.thickness, Scalar::from_units(16));
    assert_eq!(bar.displacement, Vec2::zero());
    assert_eq!(bar.rotation, Rotation::identity());
    assert!(!bar.vertical);
    assert!(!bar.reverse);
    assert!(!bar.hide);
    assert_eq!(bar.value, micros(750_000));
    assert_eq!(bar.border, None);

    let border = StatbarBorder::default();
    assert_eq!(border, StatbarBorder::all(Color::white(), Scalar::from_units(2)));
    assert_eq!(border.left, Scalar::from_units(2));
    assert_eq!(border.top, Scalar::from_units(2));

    let switch = StatbarColorSwitch::default();
    assert_eq!(switch.pivot, micros(250_000));
    assert_eq!(switch.low, Color::red());
    assert_eq!(switch.high, Color::green());

    let lerp = StatbarColorLerp::default();
    assert_eq!(Color::Rgba(lerp.min), Color::red());
    assert_eq!(Color::Rgba(lerp.max), Color::green());
}
