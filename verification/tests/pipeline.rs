use stat_bars::bar::{Statbar, StatbarBorder};
use stat_bars::collection::BarCollection;
use stat_bars::color::{Color, ColorSpec, Rgba};
use stat_bars::effects::{StatbarColorLerp, StatbarColorSwitch};
use stat_bars::geometry::Anchor;
use stat_bars::observe::{
    BindingState, ObjectId, StatbarObserveEntity, StatbarObserveParent, StatbarObserveResource,
};
use stat_bars::pipeline::{Scene, Source, StatbarDepth, StatbarSystem};
use stat_bars::scalar::Scalar;
use stat_bars::vector::{Rotation, Vec2};

type Plain = fn(Color, Color, Scalar) -> Color;

fn micros(n: i64) -> Scalar {
    Scalar::from_micros(n)
}

fn units(n: i64) -> Scalar {
    Scalar::from_units(n)
}

fn blue() -> Color {
    Color::rgb_micros(0, 0, 1_000_000)
}

fn value_of(scene: &Scene<Plain>, id: ObjectId) -> Scalar {
    scene.objects[id.0].bar.as_ref().unwrap().value
}

fn color_of(scene: &Scene<Plain>, id: ObjectId) -> Option<Color> {
    match scene.objects[id.0].bar.as_ref().unwrap().color {
        ColorSpec::Fixed(color) => Some(color),
        _ => None,
    }
}

#[test]
fn bar_follows_another_object_and_keeps_its_value_when_that_object_is_destroyed() {
    let mut scene: Scene<Plain> = Scene::new();
    let a = scene.spawn(None);
    let b = scene.spawn(None);
    scene.objects[a.0].bar = Some(Statbar::default());
    scene.objects[a.0].observers.entity = Some(StatbarObserveEntity(b));
    assert!(scene.set_source(b, micros(200_000)));
    scene.run_cycle();
    assert_eq!(value_of(&scene, a), micros(200_000));
    assert_eq!(scene.binding_state(a), BindingState::BoundAndFresh);

    assert!(scene.set_source(b, micros(600_000)));
    scene.run_cycle();
    assert_eq!(value_of(&scene, a), micros(600_000));

    assert!(scene.despawn(b));
    scene.run_cycle();
    assert_eq!(value_of(&scene, a), micros(600_000));
    assert_eq!(scene.binding_state(a), BindingState::BoundAndStale);
    assert!(!scene.set_source(b, micros(100_000)));
    scene.run_cycle();
    assert_eq!(value_of(&scene, a), micros(600_000));
}

#[test]
fn color_switch_overrides_a_colour_set_by_hand() {
    let mut scene: Scene<Plain> = Scene::new();
    let a = scene.spawn(None);
    scene.objects[a.0].bar =
        Some(Statbar { value: micros(100_000), color: ColorSpec::Fixed(blue()), ..Statbar::default() });
    scene.objects[a.0].observers.component = true;
    scene.objects[a.0].color_switch =
        Some(StatbarColorSwitch::new(micros(330_000), Color::red(), Color::green()));

    // Nothing has changed yet: the colour set by hand stays.
    scene.run_cycle();
    assert_eq!(color_of(&scene, a), Some(blue()));

    assert!(scene.set_source(a, micros(500_000)));
    scene.run_cycle();
    assert_eq!(value_of(&scene, a), micros(500_000));
    assert_eq!(color_of(&scene, a), Some(Color::green()));

    assert!(scene.set_source(a, micros(330_000)));
    scene.run_cycle();
    assert_eq!(color_of(&scene, a), Some(Color::red()));
}

#[test]
fn the_blending_rule_has_the_last_word() {
    let mut scene: Scene<Plain> = Scene::new();
    let a = scene.spawn(None);
    scene.objects[a.0].bar = Some(Statbar::default());
    scene.objects[a.0].color_switch = Some(StatbarColorSwitch::default());
    scene.objects[a.0].color_lerp = Some(StatbarColorLerp::default());
    assert!(scene.set_value(a, micros(250_000)));
    scene.run_cycle();
    assert_eq!(
        color_of(&scene, a),
        Some(Color::Rgba(Rgba {
            red: micros(750_000),
            green: micros(250_000),
            blue: micros(0),
            alpha: micros(1_000_000),
        }))
    );

    scene.objects[a.0].color_lerp = None;
    assert!(scene.set_value(a, micros(250_000)));
    scene.run_cycle();
    assert_eq!(color_of(&scene, a), Some(Color::red()));
    assert!(scene.set_value(a, micros(250_001)));
    scene.run_cycle();
    assert_eq!(color_of(&scene, a), Some(Color::green()));
}

#[test]
fn precedence_picks_one_source() {
    let mut scene: Scene<Plain> = Scene::new();
    let parent = scene.spawn(None);
    let other = scene.spawn(None);
    let child = scene.spawn(Some(parent));
    scene.objects[child.0].bar = Some(Statbar::default());
    scene.set_source(parent, micros(100_000));
    scene.set_source(other, micros(200_000));
    scene.set_source(child, micros(300_000));
    scene.set_resource(micros(400_000));

    scene.objects[child.0].observers.resource = Some(StatbarObserveResource);
    scene.update_statbar_values();
    assert_eq!(value_of(&scene, child), micros(400_000));

    scene.objects[child.0].observers.component = true;
    scene.update_statbar_values();
    assert_eq!(value_of(&scene, child), micros(300_000));

    scene.objects[child.0].observers.parent = Some(StatbarObserveParent);
    scene.update_statbar_values();
    assert_eq!(value_of(&scene, child), micros(100_000));

    scene.objects[child.0].observers.entity = Some(StatbarObserveEntity(other));
    scene.update_statbar_values();
    assert_eq!(value_of(&scene, child), micros(200_000));

    // Only the effective source counts: with the other object gone, the bar
    // does not fall back on its parent.
    scene.despawn(other);
    assert!(scene.set_source(parent, micros(900_000)));
    scene.update_statbar_values();
    assert_eq!(value_of(&scene, child), micros(200_000));
    assert_eq!(scene.binding_state(child), BindingState::BoundAndStale);
}

#[test]
fn bar_without_observers_is_local() {
    let mut scene: Scene<Plain> = Scene::new();
    let a = scene.spawn(None);
    scene.objects[a.0].bar = Some(Statbar::default());
    scene.set_source(a, micros(100_000));
    scene.set_resource(micros(200_000));
    scene.run_cycle();
    assert_eq!(value_of(&scene, a), micros(750_000));
    assert_eq!(scene.binding_state(a), BindingState::Local);
    assert_eq!(scene.reading(a), None);
}

#[test]
fn missing_parent_and_unknown_handle_leave_the_value() {
    let mut scene: Scene<Plain> = Scene::new();
    let orphan = scene.spawn(None);
    scene.objects[orphan.0].bar = Some(Statbar::default());
    scene.objects[orphan.0].observers.parent = Some(StatbarObserveParent);
    scene.run_cycle();
    assert_eq!(value_of(&scene, orphan), micros(750_000));
    assert_eq!(scene.binding_state(orphan), BindingState::BoundAndStale);

    scene.objects[orphan.0].observers.entity = Some(StatbarObserveEntity(ObjectId(77)));
    scene.run_cycle();
    assert_eq!(value_of(&scene, orphan), micros(750_000));
    assert_eq!(scene.source_of(ObjectId(77)), None);
    assert!(!scene.despawn(ObjectId(77)));
    assert!(!scene.set_value(ObjectId(77), micros(1)));
}

#[test]
fn unchanged_source_is_not_pulled_again() {
    let mut scene: Scene<Plain> = Scene::new();
    let a = scene.spawn(None);
    scene.objects[a.0].bar = Some(Statbar::default());
    scene.objects[a.0].observers.component = true;
    scene.set_source(a, micros(100_000));
    scene.run_cycle();
    assert_eq!(value_of(&scene, a), micros(100_000));
    assert_eq!(scene.objects[a.0].source, Some(Source { value: micros(100_000), changed: false }));
    assert!(!scene.objects[a.0].bar_changed);

    // A value set by hand stays while the source does not change.
    assert!(scene.set_value(a, micros(900_000)));
    scene.run_cycle();
    assert_eq!(value_of(&scene, a), micros(900_000));

    scene.set_source(a, micros(100_000));
    scene.run_cycle();
    assert_eq!(value_of(&scene, a), micros(100_000));
}

#[test]
fn stages_run_in_order() {
    assert!(StatbarSystem::UpdateValues.runs_before(StatbarSystem::UpdateColors));
    assert!(StatbarSystem::UpdateColors.runs_before(StatbarSystem::ExtractSprites));
    assert!(StatbarSystem::UpdateValues.runs_before(StatbarSystem::ExtractSprites));
    assert!(!StatbarSystem::ExtractSprites.runs_before(StatbarSystem::UpdateValues));
    assert!(!StatbarSystem::UpdateColors.runs_before(StatbarSystem::UpdateColors));
    assert_eq!(StatbarSystem::ExtractSprites.position(), 2);

    // One cycle draws with the value and the colour of this cycle.
    let mut scene: Scene<Plain> = Scene::new();
    let a = scene.spawn(None);
    scene.objects[a.0].bar =
        Some(Statbar { length: units(40), thickness: units(6), ..Statbar::default() });
    scene.objects[a.0].observers.resource = Some(StatbarObserveResource);
    scene.objects[a.0].color_switch =
        Some(StatbarColorSwitch::new(micros(500_000), Color::red(), Color::green()));
    scene.set_resource(micros(250_000));
    let requests = scene.run_cycle();
    assert_eq!(requests.len(), 2);
    assert_eq!(requests[1].rect.size, Vec2::new(units(10), units(6)));
    assert_eq!(requests[1].rect.color, Color::red());
    assert_eq!(requests[1].entity, a);
}

#[test]
fn extraction_skips_what_is_not_shown() {
    let mut scene: Scene<Plain> = Scene::new();
    let shown = scene.spawn(None);
    let invisible = scene.spawn(None);
    let hidden = scene.spawn(None);
    let gone = scene.spawn(None);
    let bare = scene.spawn(None);
    let placed = scene.spawn(None);
    for id in [shown, invisible, hidden, gone, placed] {
        scene.objects[id.0].bar = Some(Statbar { value: micros(1_000_000), ..Statbar::default() });
    }
    scene.objects[invisible.0].visible = false;
    scene.objects[hidden.0].bar.as_mut().unwrap().hide = true;
    scene.despawn(gone);
    scene.objects[placed.0].anchor = Some(Anchor {
        position: Vec2::new(units(3), units(4)),
        rotation: Rotation::quarter_turn(),
    });
    scene.objects[placed.0].bar.as_mut().unwrap().border = Some(StatbarBorder::default());

    let requests = scene.extract_stat_bars();
    assert_eq!(requests.len(), 3);
    assert_eq!(requests[0].entity, shown);
    assert_eq!(requests[0].rect.position, Vec2::zero());
    assert_eq!(requests[0].rect.depth, units(999));
    assert_eq!(requests[1].entity, placed);
    assert_eq!(requests[1].rect.size, Vec2::new(units(104), units(20)));
    assert_eq!(requests[2].entity, placed);
    assert_eq!(requests[2].rect.position, Vec2::new(units(3), units(4)));
    assert_eq!(requests[2].rect.rotation, Rotation::quarter_turn());
    assert_eq!(bare.0, 4);

    scene.depth = Some(StatbarDepth(units(5)));
    let requests = scene.extract_stat_bars();
    assert_eq!(requests[0].rect.depth, units(5));
}

#[test]
fn extraction_draws_the_bar_before_the_group() {
    let mut scene: Scene<Plain> = Scene::new();
    let first = scene.spawn(None);
    let second = scene.spawn(None);
    let mut group: BarCollection<Plain> =
        BarCollection::new(Vec2::new(units(0), units(20)), Rotation::identity());
    group.push(Statbar { value: micros(0), ..Statbar::default() });
    group.push(Statbar { value: micros(1_000_000), ..Statbar::default() });
    scene.objects[first.0].bars = Some(group);
    scene.objects[first.0].bar = Some(Statbar { value: micros(0), ..Statbar::default() });
    scene.objects[second.0].bar = Some(Statbar { value: micros(0), ..Statbar::default() });

    let requests = scene.extract_stat_bars();
    assert_eq!(requests.len(), 4);
    assert_eq!(requests[0].entity, first);
    assert_eq!(requests[0].rect.position, Vec2::zero());
    assert_eq!(requests[1].entity, first);
    assert_eq!(requests[1].rect.position, Vec2::new(units(0), units(20)));
    assert_eq!(requests[1].rect.color, Color::rgb_micros(200_000, 200_000, 0));
    assert_eq!(requests[2].entity, first);
    assert_eq!(requests[2].rect.color, Color::yellow());
    assert_eq!(requests[3].entity, second);
}

#[test]
fn settling_clears_every_mark() {
    let mut scene: Scene<Plain> = Scene::new();
    let a = scene.spawn(None);
    scene.objects[a.0].bar = Some(Statbar::default());
    scene.set_source(a, micros(1));
    scene.set_resource(micros(2));
    scene.set_value(a, micros(3));
    scene.settle();
    assert_eq!(scene.objects[a.0].source, Some(Source { value: micros(1), changed: false }));
    assert_eq!(scene.resource, Some(Source { value: micros(2), changed: false }));
    assert!(!scene.objects[a.0].bar_changed);
    assert_eq!(value_of(&scene, a), micros(3));
}

#[test]
fn stages_can_be_run_one_by_one() {
    let mut scene: Scene<Plain> = Scene::new();
    let a = scene.spawn(None);
    scene.objects[a.0].bar = Some(Statbar::default());
    scene.objects[a.0].observers.component = true;
    scene.objects[a.0].color_switch = Some(StatbarColorSwitch::default());
    scene.set_source(a, micros(100_000));

    // Drawn too early, the bar shows the value and the colour of the cycle
    // before.
    let early = scene.run_stage(StatbarSystem::ExtractSprites);
    assert_eq!(early.len(), 2);
    assert_eq!(early[1].rect.size, Vec2::new(units(75), units(16)));
    assert_eq!(early[1].rect.color, Color::yellow());

    assert!(scene.run_stage(StatbarSystem::UpdateValues).is_empty());
    assert_eq!(value_of(&scene, a), micros(100_000));
    assert_eq!(color_of(&scene, a), Some(Color::yellow()));
    assert!(scene.run_stage(StatbarSystem::UpdateColors).is_empty());
    assert_eq!(color_of(&scene, a), Some(Color::red()));
    let requests = scene.run_stage(StatbarSystem::ExtractSprites);
    assert_eq!(requests.len(), 2);
    assert_eq!(requests[1].rect.size, Vec2::new(units(10), units(16)));
    assert_eq!(requests[1].rect.color, Color::red());
}

#[test]
fn a_second_cycle_without_changes_changes_nothing() {
    let mut scene: Scene<Plain> = Scene::new();
    let a = scene.spawn(None);
    let b = scene.spawn(Some(a));
    scene.objects[a.0].bar = Some(Statbar::default());
    scene.objects[a.0].observers.component = true;
    scene.objects[a.0].color_lerp = Some(StatbarColorLerp::default());
    scene.objects[b.0].bar = Some(Statbar::default());
    scene.objects[b.0].observers.parent = Some(StatbarObserveParent);
    scene.objects[b.0].color_switch = Some(StatbarColorSwitch::default());
    scene.set_source(a, micros(200_000));

    let first = scene.run_cycle();
    let values = (value_of(&scene, a), value_of(&scene, b));
    let colors = (color_of(&scene, a), color_of(&scene, b));
    let second = scene.run_cycle();
    assert_eq!(first, second);
    assert_eq!(first.len(), 4);
    assert_eq!(values, (micros(200_000), micros(200_000)));
    assert_eq!((value_of(&scene, a), value_of(&scene, b)), values);
    assert_eq!((color_of(&scene, a), color_of(&scene, b)), colors);
    assert_eq!(colors.1, Some(Color::red()));
}
