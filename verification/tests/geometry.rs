use stat_bars::bar::{Statbar, StatbarBorder};
use stat_bars::collection::BarCollection;
use stat_bars::color::{Color, ColorSpec};
use stat_bars::geometry::{Anchor, Rect};
use stat_bars::scalar::Scalar;
use stat_bars::vector::{Rotation, Vec2};

type Plain = fn(Color, Color, Scalar) -> Color;

fn units(n: i64) -> Scalar {
    Scalar::from_units(n)
}

fn micros(n: i64) -> Scalar {
    Scalar::from_micros(n)
}

fn point(x: i64, y: i64) -> Vec2 {
    Vec2::new(units(x), units(y))
}

fn gray() -> Color {
    Color::rgb_micros(500_000, 500_000, 500_000)
}

fn sample_bar(value: i64) -> Statbar<Plain> {
    Statbar {
        value: micros(value),
        length: units(40),
        thickness: units(6),
        ..Statbar::default()
    }
}

#[test]
fn three_quarter_bar_with_border_gives_three_rectangles() {
    let bar = Statbar { border: Some(StatbarBorder::all(gray(), units(2))), ..sample_bar(750_000) };
    let rects = bar.build(Anchor::origin(), units(999));
    assert_eq!(rects.len(), 3);

    let border = rects[0];
    assert_eq!(border.size, point(44, 10));
    assert_eq!(border.position, point(0, 0));
    assert_eq!(border.color, gray());

    let empty = rects[1];
    assert_eq!(empty.size, point(40, 6));
    assert_eq!(empty.position, point(0, 0));
    assert_eq!(empty.color, Color::rgb_micros(200_000, 200_000, 0));

    let full = rects[2];
    assert_eq!(full.size, point(30, 6));
    assert_eq!(full.position, point(-5, 0));
    assert_eq!(full.color, Color::yellow());

    // What the full part leaves of the empty part to be seen is ten by six,
    // toward the end of the bar.
    let seen_length = empty.size.x.minus(full.size.x);
    let seen_centre = full.position.x.plus(full.size.x.half()).plus(seen_length.half());
    assert_eq!(seen_length, units(10));
    assert_eq!(empty.size.y, units(6));
    assert_eq!(seen_centre, units(15));
    assert!(full.position.x.lt(seen_centre));

    for rect in &rects {
        assert_eq!(rect.depth, units(999));
        assert_eq!(rect.rotation, Rotation::identity());
    }
}

#[test]
fn value_decides_which_parts_are_drawn() {
    let empty_only = sample_bar(0).build(Anchor::origin(), units(1));
    assert_eq!(empty_only.len(), 1);
    assert_eq!(empty_only[0].color, Color::rgb_micros(200_000, 200_000, 0));

    let full_only = sample_bar(1_000_000).build(Anchor::origin(), units(1));
    assert_eq!(full_only.len(), 1);
    assert_eq!(full_only[0].color, Color::yellow());
    assert_eq!(full_only[0].size, point(40, 6));
    assert_eq!(full_only[0].position, point(0, 0));

    let both = sample_bar(1).build(Anchor::origin(), units(1));
    assert_eq!(both.len(), 2);
    assert_eq!(both[0].color, Color::rgb_micros(200_000, 200_000, 0));
    assert_eq!(both[1].color, Color::yellow());
}

#[test]
fn values_out_of_range_degrade_to_empty_or_full() {
    let below = sample_bar(-7_000_000).build(Anchor::origin(), units(1));
    assert_eq!(below.len(), 1);
    assert_eq!(below[0].size, point(40, 6));
    assert_eq!(below[0].color, Color::rgb_micros(200_000, 200_000, 0));

    let above = sample_bar(7_000_000).build(Anchor::origin(), units(1));
    assert_eq!(above.len(), 1);
    assert_eq!(above[0].size, point(40, 6));
    assert_eq!(above[0].position, point(0, 0));
    assert_eq!(above[0].color, Color::yellow());
}

#[test]
fn hidden_bar_gives_nothing() {
    let bar = Statbar { hide: true, border: Some(StatbarBorder::default()), ..sample_bar(500_000) };
    assert!(bar.build(Anchor::origin(), units(1)).is_empty());
}

#[test]
fn negative_sizes_count_as_zero() {
    let bar = Statbar {
        length: units(-40),
        thickness: units(-6),
        border: Some(StatbarBorder {
            color: gray(),
            left: units(-1),
            right: units(3),
            bottom: units(-2),
            top: units(1),
        }),
        ..sample_bar(500_000)
    };
    let rects = bar.build(Anchor::origin(), units(1));
    assert_eq!(rects.len(), 3);
    assert_eq!(rects[0].size, point(3, 1));
    assert_eq!(rects[1].size, point(0, 0));
    assert_eq!(rects[2].size, point(0, 0));
    assert_eq!(rects[2].position, point(0, 0));
}

#[test]
fn reversed_bar_mirrors_the_full_part() {
    let anchor = Anchor { position: point(100, 50), rotation: Rotation::identity() };
    let forward = sample_bar(300_000).build(anchor, units(1));
    let backward = Statbar { reverse: true, ..sample_bar(300_000) }.build(anchor, units(1));
    assert_eq!(forward.len(), 2);
    assert_eq!(backward.len(), 2);
    assert_eq!(forward[0], backward[0]);
    assert_eq!(forward[1].size, point(12, 6));
    assert_eq!(backward[1].size, point(12, 6));
    assert_eq!(forward[1].position, point(86, 50));
    assert_eq!(backward[1].position, point(114, 50));
    assert_eq!(forward[1].color, backward[1].color);
}

#[test]
fn vertical_bar_grows_from_the_bottom() {
    let bar = Statbar {
        vertical: true,
        border: Some(StatbarBorder {
            color: gray(),
            left: units(1),
            right: units(2),
            bottom: units(3),
            top: units(4),
        }),
        ..sample_bar(250_000)
    };
    let rects = bar.build(Anchor::origin(), units(1));
    assert_eq!(rects.len(), 3);
    assert_eq!(rects[0].size, point(13, 43));
    assert_eq!(rects[1].size, point(6, 40));
    assert_eq!(rects[2].size, point(6, 10));
    assert_eq!(rects[2].position, point(0, -15));
}

#[test]
fn bar_is_placed_in_the_frame_of_its_object() {
    let anchor = Anchor { position: point(10, 20), rotation: Rotation::quarter_turn() };
    let bar = Statbar { displacement: point(5, 0), ..sample_bar(500_000) };
    let rects = bar.build(anchor, units(1));
    assert_eq!(rects.len(), 2);
    assert_eq!(rects[0].position, point(10, 25));
    assert_eq!(rects[0].rotation, Rotation::quarter_turn());
    // The full part is shifted ten units toward the start of the bar, which
    // now points down the y axis.
    assert_eq!(rects[1].position, point(10, 15));
    assert_eq!(rects[1].size, point(20, 6));
}

#[test]
fn build_is_repeatable() {
    let bar = Statbar {
        color: ColorSpec::CosineLerp {
            min: stat_bars::color::Rgba {
                red: units(1),
                green: units(0),
                blue: units(0),
                alpha: units(1),
            },
            max: stat_bars::color::Rgba {
                red: units(0),
                green: units(1),
                blue: units(0),
                alpha: units(1),
            },
        },
        border: Some(StatbarBorder::default()),
        ..sample_bar(333_333)
    };
    let anchor = Anchor { position: point(3, 4), rotation: Rotation::quarter_turn() };
    let first: Vec<Rect> = bar.build(anchor, units(7));
    let second: Vec<Rect> = bar.build(anchor, units(7));
    assert_eq!(first.len(), 3);
    assert_eq!(first, second);
}

#[test]
fn build_into_keeps_what_the_list_held() {
    let mut out = sample_bar(0).build(Anchor::origin(), units(1));
    let before = out.clone();
    sample_bar(500_000).build_into(Anchor::origin(), units(2), &mut out);
    assert_eq!(out.len(), 3);
    assert_eq!(out[0], before[0]);
    assert_eq!(out[1].depth, units(2));
    assert_eq!(out[2].size, point(20, 6));
}

#[test]
fn quarter_turned_group_carries_its_member() {
    let mut group: BarCollection<Plain> = BarCollection::new(Vec2::zero(), Rotation::quarter_turn());
    let index = group.push(Statbar { displacement: point(10, 0), ..sample_bar(0) });
    assert_eq!(index, 0);
    let rects = group.build_all(Anchor::origin(), units(1));
    assert_eq!(rects.len(), 1);
    assert_eq!(rects[0].position, point(0, 10));
    assert_eq!(rects[0].rotation, Rotation::quarter_turn());
}

#[test]
fn group_draws_its_bars_in_index_order() {
    let mut group: BarCollection<Plain> = BarCollection::new(point(0, 30), Rotation::identity());
    let health = group.push(Statbar { displacement: point(0, -12), ..sample_bar(900_000) });
    let mana = group.push(Statbar { hide: true, ..sample_bar(600_000) });
    let stamina = group.push(Statbar { displacement: point(0, 12), ..sample_bar(1_000_000) });
    assert_eq!((health, mana, stamina), (0, 1, 2));
    assert_eq!(group.len(), 3);

    let rects = group.build_all(Anchor { position: point(1, 1), rotation: Rotation::identity() }, units(5));
    assert_eq!(rects.len(), 3);
    assert_eq!(rects[0].position, point(1, 19));
    assert_eq!(rects[0].size, point(40, 6));
    assert_eq!(rects[1].position, point(-1, 19));
    assert_eq!(rects[1].size, point(36, 6));
    assert_eq!(rects[2].position, point(1, 43));
    assert_eq!(rects[2].size, point(40, 6));

    group.set_value(mana, micros(250_000));
    assert_eq!(group.bar(mana).value, micros(250_000));
    assert_eq!(group.bar(health).value, micros(900_000));
    assert!(group.bar(mana).hide);
}

#[test]
fn empty_group_draws_nothing() {
    let group: BarCollection<Plain> = BarCollection::new(point(1, 2), Rotation::quarter_turn());
    assert!(group.build_all(Anchor::origin(), units(1)).is_empty());
}
