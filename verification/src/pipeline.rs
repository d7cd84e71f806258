//! The update cycle: pull values, derive colours, hand out rectangles.
//!
//! A [`Scene`] is a table of objects. Each object may carry a value source,
//! a bar, observer annotations and colour rules. One cycle runs three
//! stages over the table, always in this order:
//!
//! 1. every bar pulls the value of the source that its binding resolves to,
//!    if that source has changed;
//! 2. every bar whose value was written has its colour set by the colour
//!    rules attached to its object;
//! 3. every visible bar is turned into rectangles.
//!
//! A scene holds the bars of one meaning. A host that shows several values
//! per object, health and mana say, keeps one scene for each and uses the
//! same handles in all of them.
//!
//! What is stated of the cycle here is stated of a [`Scene`]. A host with a
//! table and a scheduler of its own runs the same steps itself, bar by bar,
//! with [`Observers::effective`], [`crate::observe::observe`], the colour
//! rules and [`Statbar::build`]; keeping the stages in order is then the
//! host's part.

use vstd::prelude::*;
use crate::bar::Statbar;
use crate::collection::{lemma_build_all_is_repeatable, BarCollection};
use crate::color::{Color, ColorSpec};
use crate::effects::{StatbarColorLerp, StatbarColorSwitch};
use crate::geometry::{lemma_build_is_repeatable, Anchor, Rect};
use crate::observe::{
    observe, spec_observed, BindingState, ObjectId, ObservationBinding, Observers,
};
use crate::scalar::Scalar;

verus! {

/// The depth that the rectangles are drawn at. Where a scene has none, they
/// are drawn at [`DEFAULT_Z_DEPTH`].
#[derive(Clone, Copy, Debug, PartialEq, Eq, Structural)]
pub struct StatbarDepth(pub Scalar);

/// The depth the rectangles are drawn at by default, in millionths: 999.
pub const DEFAULT_Z_DEPTH: i64 = 999_000_000;

/// The stages of a cycle.
#[derive(Clone, Copy, Debug, Hash, PartialEq, Eq, Structural)]
pub enum StatbarSystem {
    UpdateValues,
    UpdateColors,
    ExtractSprites,
}

impl StatbarSystem {
    /// The place of the stage in a cycle, counting from zero.
    pub open spec fn spec_position(self) -> nat {
        match self {
            StatbarSystem::UpdateValues => 0,
            StatbarSystem::UpdateColors => 1,
            StatbarSystem::ExtractSprites => 2,
        }
    }

    /// The place of the stage in a cycle, counting from zero.
    pub fn position(self) -> (out: u8)
        ensures
            out == self.spec_position(),
    {
        match self {
            StatbarSystem::UpdateValues => 0,
            StatbarSystem::UpdateColors => 1,
            StatbarSystem::ExtractSprites => 2,
        }
    }

    /// Whether this stage runs before `other` in every cycle.
    pub open spec fn spec_runs_before(self, other: StatbarSystem) -> bool {
        self.spec_position() < other.spec_position()
    }

    /// Whether this stage runs before `other` in every cycle.
    #[verifier::when_used_as_spec(spec_runs_before)]
    pub fn runs_before(self, other: StatbarSystem) -> (out: bool)
        ensures
            out == self.spec_runs_before(other),
    {
        self.position() < other.position()
    }
}

/// A value that bars can observe, with a mark that says whether it has
/// changed since the last cycle.
#[derive(Clone, Copy, Debug, PartialEq, Eq, Structural)]
pub struct Source {
    pub value: Scalar,
    pub changed: bool,
}

/// One rectangle to draw, and the object it belongs to.
#[derive(Clone, Copy, Debug, PartialEq, Eq, Structural)]
pub struct DrawRequest {
    pub entity: ObjectId,
    pub rect: Rect,
}

/// One object of a scene.
pub struct Object<F> {
    /// false once the object has been destroyed
    pub alive: bool,
    /// the object this one is attached to, if any
    pub parent: Option<ObjectId>,
    /// where the object is in the world; `None` stands for the origin,
    /// unrotated
    pub anchor: Option<Anchor>,
    /// whether the object is visible
    pub visible: bool,
    /// the value that this object offers to observers
    pub source: Option<Source>,
    /// the bar of this object
    pub bar: Option<Statbar<F>>,
    /// whether the bar has been written since the last cycle
    pub bar_changed: bool,
    /// a group of further bars, whose values are set by hand; it is drawn
    /// after the bar
    pub bars: Option<BarCollection<F>>,
    /// where the bar's value comes from
    pub observers: Observers,
    /// colour rule: one of two colours by a threshold
    pub color_switch: Option<StatbarColorSwitch>,
    /// colour rule: a blend of two colours
    pub color_lerp: Option<StatbarColorLerp>,
}

/// A table of objects, the global value, and the depth to draw at.
pub struct Scene<F> {
    /// the objects; the handle of an object is its index
    pub objects: Vec<Object<F>>,
    /// the global value
    pub resource: Option<Source>,
    /// the depth to draw at
    pub depth: Option<StatbarDepth>,
}

/// What a scene holds, as plain mathematics.
pub struct SceneView<F> {
    pub objects: Seq<Object<F>>,
    pub resource: Option<Source>,
    pub depth: Option<StatbarDepth>,
}

impl<F> View for Scene<F> {
    type V = SceneView<F>;

    open spec fn view(&self) -> SceneView<F> {
        SceneView { objects: self.objects@, resource: self.resource, depth: self.depth }
    }
}

impl<F> SceneView<F> {
    /// The source on the object `id`: none where the handle names no
    /// object, or a destroyed one, or one without a source.
    pub open spec fn source_of(self, id: ObjectId) -> Option<Source> {
        if id.0 < self.objects.len() && self.objects[id.0 as int].alive {
            self.objects[id.0 as int].source
        } else {
            None
        }
    }

    /// The source that the binding of the object at `index` resolves to,
    /// if it can be found.
    pub open spec fn resolve(self, index: int) -> Option<Source> {
        let object = self.objects[index];
        match object.observers.spec_effective() {
            ObservationBinding::Local => None,
            ObservationBinding::FromSelfComponent => object.source,
            ObservationBinding::FromParent => match object.parent {
                Some(parent) => self.source_of(parent),
                None => None,
            },
            ObservationBinding::FromEntity(target) => self.source_of(target),
            ObservationBinding::FromResource => self.resource,
        }
    }

    /// How the binding of the object at `index` stands: `Local` without a
    /// binding, fresh where the source of the binding is found, stale where
    /// it is not.
    pub open spec fn binding_state(self, index: int) -> BindingState {
        BindingState::spec_after_cycle(
            self.objects[index].observers.spec_effective(),
            self.resolve(index) is Some,
        )
    }

    /// The value that the bar of the object at `index` pulls this cycle:
    /// the value of its source, where the object is alive and has a bar and
    /// the source is found and has changed.
    pub open spec fn reading(self, index: int) -> Option<Scalar> {
        let object = self.objects[index];
        if object.alive && object.bar is Some {
            match self.resolve(index) {
                Some(source) => if source.changed {
                    Some(source.value)
                } else {
                    None
                },
                None => None,
            }
        } else {
            None
        }
    }

    /// The object at `index` after the first stage: with the value it
    /// pulled written into its bar, and the bar marked as written; or as it
    /// was, where it pulled none.
    pub open spec fn object_after_values(self, index: int) -> Object<F> {
        let object = self.objects[index];
        match self.reading(index) {
            Some(value) => Object {
                bar: Some(spec_observed(object.bar->0, Some(value))),
                bar_changed: true,
                ..object
            },
            None => object,
        }
    }

    /// The scene after the first stage.
    pub open spec fn after_values(self) -> SceneView<F> {
        SceneView {
            objects: Seq::new(self.objects.len(), |index: int| self.object_after_values(index)),
            ..self
        }
    }

    /// Whether the colour rules of the object at `index` run this cycle:
    /// the object is alive and its bar has been written since the last
    /// cycle.
    pub open spec fn recolors(self, index: int) -> bool {
        let object = self.objects[index];
        object.alive && object.bar is Some && object.bar_changed
    }

    /// The object at `index` after the threshold rule has run.
    pub open spec fn object_after_switch(self, index: int) -> Object<F> {
        let object = self.objects[index];
        if self.recolors(index) && object.color_switch is Some {
            Object { bar: Some(object.color_switch->0.spec_applied(object.bar->0)), ..object }
        } else {
            object
        }
    }

    /// The scene after the threshold rules have run.
    pub open spec fn after_switch(self) -> SceneView<F> {
        SceneView {
            objects: Seq::new(self.objects.len(), |index: int| self.object_after_switch(index)),
            ..self
        }
    }

    /// The object at `index` after the blending rule has run.
    pub open spec fn object_after_lerp(self, index: int) -> Object<F> {
        let object = self.objects[index];
        if self.recolors(index) && object.color_lerp is Some {
            Object { bar: Some(object.color_lerp->0.spec_applied(object.bar->0)), ..object }
        } else {
            object
        }
    }

    /// The scene after the blending rules have run.
    pub open spec fn after_lerp(self) -> SceneView<F> {
        SceneView {
            objects: Seq::new(self.objects.len(), |index: int| self.object_after_lerp(index)),
            ..self
        }
    }

    /// The scene after the second stage: the threshold rules run first and
    /// the blending rules second, so that where an object has both, the
    /// blending rule has the last word.
    pub open spec fn after_colors(self) -> SceneView<F> {
        self.after_switch().after_lerp()
    }

    /// The scene after the stage `stage`. The third stage reads the scene
    /// and leaves it as it is.
    pub open spec fn after_stage(self, stage: StatbarSystem) -> SceneView<F> {
        match stage {
            StatbarSystem::UpdateValues => self.after_values(),
            StatbarSystem::UpdateColors => self.after_colors(),
            StatbarSystem::ExtractSprites => self,
        }
    }

    /// The object at `index` with its marks of change cleared.
    pub open spec fn object_settled(self, index: int) -> Object<F> {
        let object = self.objects[index];
        Object {
            source: match object.source {
                Some(source) => Some(Source { changed: false, ..source }),
                None => None,
            },
            bar_changed: false,
            ..object
        }
    }

    /// The scene at the end of a cycle: every mark of change is cleared.
    pub open spec fn settled(self) -> SceneView<F> {
        SceneView {
            objects: Seq::new(self.objects.len(), |index: int| self.object_settled(index)),
            resource: match self.resource {
                Some(source) => Some(Source { changed: false, ..source }),
                None => None,
            },
            depth: self.depth,
        }
    }

    /// The depth that the scene is drawn at.
    pub open spec fn spec_depth(self) -> Scalar {
        match self.depth {
            Some(depth) => depth.0,
            None => Scalar { raw: DEFAULT_Z_DEPTH },
        }
    }

    /// Where the object at `index` is: an object without an anchor is at
    /// the origin, unrotated.
    pub open spec fn spec_anchor(self, index: int) -> Anchor {
        match self.objects[index].anchor {
            Some(anchor) => anchor,
            None => Anchor::spec_origin(),
        }
    }

    /// Whether the object at `index` is handed to the renderer: it is alive
    /// and visible. (A bar that hides itself is handed over as no
    /// rectangles.)
    pub open spec fn is_shown(self, index: int) -> bool {
        let object = self.objects[index];
        object.alive && object.visible
    }

    /// A blank object attached to `parent`: alive and visible, with
    /// nothing on it.
    pub open spec fn blank(parent: Option<ObjectId>) -> Object<F> {
        Object {
            alive: true,
            parent,
            anchor: None,
            visible: true,
            source: None,
            bar: None,
            bar_changed: false,
            bars: None,
            observers: Observers::spec_none(),
            color_switch: None,
            color_lerp: None,
        }
    }

    /// What is left of a destroyed object: nothing but its parent.
    pub open spec fn remains(object: Object<F>) -> Object<F> {
        Object { alive: false, visible: false, ..Self::blank(object.parent) }
    }
}

impl<F: Fn(Color, Color, Scalar) -> Color> SceneView<F> {
    /// Whether every bar of the scene is well formed, those in groups
    /// too.
    pub open spec fn wf(self) -> bool {
        forall|index: int|
            0 <= index < self.objects.len() ==> {
                &&& (#[trigger] self.objects[index]).bar is Some ==> self.objects[index].bar->0.wf()
                &&& self.objects[index].bars is Some ==> self.objects[index].bars->0.wf()
            }
    }

    /// Whether every request of `part` names the object at `index`.
    pub open spec fn names(index: int, part: Seq<DrawRequest>) -> bool {
        forall|k: int| 0 <= k < part.len() ==> (#[trigger] part[k]).entity == ObjectId(index as usize)
    }

    /// Whether `part` is a list of the draw requests of the bar of the
    /// object at `index`: its rectangles are a list of rectangles of the
    /// bar, and each request names the object. An object that is not shown,
    /// or has no bar, has none.
    pub open spec fn bar_draws(self, index: int, part: Seq<DrawRequest>) -> bool {
        if self.is_shown(index) && self.objects[index].bar is Some {
            &&& self.objects[index].bar->0.builds(
                self.spec_anchor(index),
                self.spec_depth(),
                part.map_values(|request: DrawRequest| request.rect),
            )
            &&& Self::names(index, part)
        } else {
            part =~= Seq::<DrawRequest>::empty()
        }
    }

    /// Whether `part` is a list of the draw requests of the group of bars
    /// of the object at `index`, as [`SceneView::bar_draws`] says of the
    /// bar.
    pub open spec fn group_draws(self, index: int, part: Seq<DrawRequest>) -> bool {
        if self.is_shown(index) && self.objects[index].bars is Some {
            &&& self.objects[index].bars->0.builds_all(
                self.spec_anchor(index),
                self.spec_depth(),
                part.map_values(|request: DrawRequest| request.rect),
            )
            &&& Self::names(index, part)
        } else {
            part =~= Seq::<DrawRequest>::empty()
        }
    }

    /// Whether `parts` holds, for each object in the order of the handles,
    /// a list of the requests of its bar and then one of the requests of
    /// its group.
    pub open spec fn draws_parts(self, parts: Seq<Seq<DrawRequest>>) -> bool {
        &&& parts.len() == 2 * self.objects.len()
        &&& forall|index: int|
            0 <= index < self.objects.len() ==> self.bar_draws(index, #[trigger] parts[2 * index])
        &&& forall|index: int|
            0 <= index < self.objects.len() ==> self.group_draws(
                index,
                #[trigger] parts[2 * index + 1],
            )
    }

    /// Whether `out` is a list of the draw requests of the scene: those of
    /// the first object, then those of the second, and so on, and for each
    /// object those of its bar before those of its group.
    pub open spec fn extracts(self, out: Seq<DrawRequest>) -> bool {
        exists|parts: Seq<Seq<DrawRequest>>| self.draws_parts(parts) && out == parts.flatten()
    }
}

impl<F> Scene<F> {
    /// A scene without objects.
    pub fn new() -> (out: Scene<F>)
        ensures
            out@.objects == Seq::<Object<F>>::empty(),
            out@.resource is None,
            out@.depth is None,
    {
        Scene { objects: Vec::new(), resource: None, depth: None }
    }

    /// The source on the object `id`, if the object is there, alive and
    /// has one.
    pub fn source_of(&self, id: ObjectId) -> (out: Option<Source>)
        ensures
            out == self@.source_of(id),
    {
        if id.0 < self.objects.len() && self.objects[id.0].alive {
            self.objects[id.0].source
        } else {
            None
        }
    }

    /// The source that the binding of the object `id` resolves to, if it
    /// can be found.
    pub fn resolve(&self, id: ObjectId) -> (out: Option<Source>)
        requires
            id.0 < self@.objects.len(),
        ensures
            out == self@.resolve(id.0 as int),
    {
        let object = &self.objects[id.0];
        match object.observers.effective() {
            ObservationBinding::Local => None,
            ObservationBinding::FromSelfComponent => object.source,
            ObservationBinding::FromParent => match object.parent {
                Some(parent) => self.source_of(parent),
                None => None,
            },
            ObservationBinding::FromEntity(target) => self.source_of(target),
            ObservationBinding::FromResource => self.resource,
        }
    }

    /// How the binding of the object `id` stands: `Local` without a
    /// binding, fresh where the source of the binding is found, stale where
    /// it is not.
    pub fn binding_state(&self, id: ObjectId) -> (out: BindingState)
        requires
            id.0 < self@.objects.len(),
        ensures
            out == self@.binding_state(id.0 as int),
    {
        let found = self.resolve(id).is_some();
        BindingState::after_cycle(self.objects[id.0].observers.effective(), found)
    }

    /// The value that the bar of the object `id` pulls this cycle: the
    /// value of its source, where the object is alive and has a bar and the
    /// source is found and has changed.
    pub fn reading(&self, id: ObjectId) -> (out: Option<Scalar>)
        requires
            id.0 < self@.objects.len(),
        ensures
            out == self@.reading(id.0 as int),
    {
        if self.objects[id.0].alive && self.objects[id.0].bar.is_some() {
            match self.resolve(id) {
                Some(source) => if source.changed {
                    Some(source.value)
                } else {
                    None
                },
                None => None,
            }
        } else {
            None
        }
    }

    /// The first stage of a cycle: every bar pulls the value of the source
    /// that its binding resolves to. A bar without a binding, and a bar
    /// whose source is missing or has not changed, keeps its value.
    pub fn update_statbar_values(&mut self)
        ensures
            final(self)@ == old(self)@.after_values(),
    {
        let ghost before = self@;
        let count = self.objects.len();
        let mut index: usize = 0;
        while index < count
            invariant
                index <= count,
                count == before.objects.len(),
                self@.objects.len() == count,
                self@.resource == before.resource,
                self@.depth == before.depth,
                forall|j: int|
                    0 <= j < index ==> #[trigger] self@.objects[j] == before.object_after_values(j),
                forall|j: int| index <= j < count ==> #[trigger] self@.objects[j] == before.objects[j],
            decreases count - index,
        {
            proof {
                lemma_reading_ignores_bars(before, self@, index as int);
            }
            let reading = self.reading(ObjectId(index));
            if reading.is_some() {
                match &mut self.objects[index].bar {
                    Some(bar) => {
                        observe(bar, reading);
                    },
                    None => {},
                }
                self.objects[index].bar_changed = true;
            }
            index = index + 1;
        }
        assert(self@.objects =~= before.after_values().objects);
    }

    /// The second stage of a cycle, first half: every bar that has been
    /// written since the last cycle and whose object has a threshold rule
    /// gets its colour from that rule.
    pub fn switch_stat_bar_colors(&mut self)
        ensures
            final(self)@ == old(self)@.after_switch(),
    {
        let ghost before = self@;
        let count = self.objects.len();
        let mut index: usize = 0;
        while index < count
            invariant
                index <= count,
                count == before.objects.len(),
                self@.objects.len() == count,
                self@.resource == before.resource,
                self@.depth == before.depth,
                forall|j: int|
                    0 <= j < index ==> #[trigger] self@.objects[j] == before.object_after_switch(j),
                forall|j: int| index <= j < count ==> #[trigger] self@.objects[j] == before.objects[j],
            decreases count - index,
        {
            if self.objects[index].alive && self.objects[index].bar_changed {
                if let Some(rule) = self.objects[index].color_switch {
                    match &mut self.objects[index].bar {
                        Some(bar) => {
                            rule.apply(bar);
                        },
                        None => {},
                    }
                }
            }
            index = index + 1;
        }
        assert(self@.objects =~= before.after_switch().objects);
    }

    /// The second stage of a cycle, second half: every bar that has been
    /// written since the last cycle and whose object has a blending rule
    /// gets its colour from that rule.
    pub fn lerp_stat_bar_colors(&mut self)
        ensures
            final(self)@ == old(self)@.after_lerp(),
    {
        let ghost before = self@;
        let count = self.objects.len();
        let mut index: usize = 0;
        while index < count
            invariant
                index <= count,
                count == before.objects.len(),
                self@.objects.len() == count,
                self@.resource == before.resource,
                self@.depth == before.depth,
                forall|j: int|
                    0 <= j < index ==> #[trigger] self@.objects[j] == before.object_after_lerp(j),
                forall|j: int| index <= j < count ==> #[trigger] self@.objects[j] == before.objects[j],
            decreases count - index,
        {
            if self.objects[index].alive && self.objects[index].bar_changed {
                if let Some(rule) = self.objects[index].color_lerp {
                    match &mut self.objects[index].bar {
                        Some(bar) => {
                            rule.apply(bar);
                        },
                        None => {},
                    }
                }
            }
            index = index + 1;
        }
        assert(self@.objects =~= before.after_lerp().objects);
    }

    /// The second stage of a cycle: the threshold rules, then the blending
    /// rules.
    pub fn update_statbar_colors(&mut self)
        ensures
            final(self)@ == old(self)@.after_colors(),
    {
        self.switch_stat_bar_colors();
        self.lerp_stat_bar_colors();
    }

    /// Ends a cycle: clears every mark of change.
    pub fn settle(&mut self)
        ensures
            final(self)@ == old(self)@.settled(),
    {
        let ghost before = self@;
        let count = self.objects.len();
        let mut index: usize = 0;
        while index < count
            invariant
                index <= count,
                count == before.objects.len(),
                self@.objects.len() == count,
                self@.resource == before.resource,
                self@.depth == before.depth,
                forall|j: int|
                    0 <= j < index ==> #[trigger] self@.objects[j] == before.object_settled(j),
                forall|j: int| index <= j < count ==> #[trigger] self@.objects[j] == before.objects[j],
            decreases count - index,
        {
            if let Some(source) = self.objects[index].source {
                self.objects[index].source = Some(Source { value: source.value, changed: false });
            }
            self.objects[index].bar_changed = false;
            index = index + 1;
        }
        if let Some(source) = self.resource {
            self.resource = Some(Source { value: source.value, changed: false });
        }
        assert(self@.objects =~= before.settled().objects);
    }

    /// Adds a blank object attached to `parent` and returns its handle.
    pub fn spawn(&mut self, parent: Option<ObjectId>) -> (id: ObjectId)
        ensures
            final(self)@.objects == old(self)@.objects.push(SceneView::<F>::blank(parent)),
            final(self)@.resource == old(self)@.resource,
            final(self)@.depth == old(self)@.depth,
            id.0 == old(self)@.objects.len(),
    {
        let id = ObjectId(self.objects.len());
        self.objects.push(
            Object {
                alive: true,
                parent,
                anchor: None,
                visible: true,
                source: None,
                bar: None,
                bar_changed: false,
                bars: None,
                observers: Observers::none(),
                color_switch: None,
                color_lerp: None,
            },
        );
        id
    }

    /// Destroys the object `id`: its source, its bar and everything else
    /// on it are gone, and its handle is not given out again. Returns false,
    /// and changes nothing, where the handle names no object.
    pub fn despawn(&mut self, id: ObjectId) -> (found: bool)
        ensures
            found == (id.0 < old(self)@.objects.len()),
            found ==> final(self)@.objects == old(self)@.objects.update(
                id.0 as int,
                SceneView::<F>::remains(old(self)@.objects[id.0 as int]),
            ),
            !found ==> final(self)@.objects == old(self)@.objects,
            final(self)@.resource == old(self)@.resource,
            final(self)@.depth == old(self)@.depth,
    {
        if id.0 < self.objects.len() {
            let parent = self.objects[id.0].parent;
            self.objects.set(
                id.0,
                Object {
                    alive: false,
                    parent,
                    anchor: None,
                    visible: false,
                    source: None,
                    bar: None,
                    bar_changed: false,
                    bars: None,
                    observers: Observers::none(),
                    color_switch: None,
                    color_lerp: None,
                },
            );
            true
        } else {
            false
        }
    }

    /// Gives the object `id` the value `value` to offer to observers, and
    /// marks it as changed. Returns false, and changes nothing, where the
    /// handle names no object or a destroyed one.
    pub fn set_source(&mut self, id: ObjectId, value: Scalar) -> (found: bool)
        ensures
            found == (id.0 < old(self)@.objects.len() && old(self)@.objects[id.0 as int].alive),
            found ==> final(self)@.objects == old(self)@.objects.update(
                id.0 as int,
                (Object {
                    source: Some(Source { value, changed: true }),
                    ..old(self)@.objects[id.0 as int]
                }),
            ),
            !found ==> final(self)@.objects == old(self)@.objects,
            final(self)@.resource == old(self)@.resource,
            final(self)@.depth == old(self)@.depth,
    {
        if id.0 < self.objects.len() && self.objects[id.0].alive {
            self.objects[id.0].source = Some(Source { value, changed: true });
            assert(self@.objects =~= old(self)@.objects.update(
                id.0 as int,
                (Object {
                    source: Some(Source { value, changed: true }),
                    ..old(self)@.objects[id.0 as int]
                }),
            ));
            true
        } else {
            false
        }
    }

    /// Sets the global value to `value` and marks it as changed.
    pub fn set_resource(&mut self, value: Scalar)
        ensures
            final(self)@ == (SceneView {
                resource: Some(Source { value, changed: true }),
                ..old(self)@
            }),
    {
        self.resource = Some(Source { value, changed: true });
    }

    /// Sets the value of the bar of the object `id` by hand and marks the
    /// bar as written. Returns false, and changes nothing, where the handle
    /// names no object, or a destroyed one, or one without a bar.
    pub fn set_value(&mut self, id: ObjectId, value: Scalar) -> (found: bool)
        ensures
            found == (id.0 < old(self)@.objects.len() && old(self)@.objects[id.0 as int].alive
                && old(self)@.objects[id.0 as int].bar is Some),
            found ==> final(self)@.objects == old(self)@.objects.update(
                id.0 as int,
                (Object {
                    bar: Some(Statbar { value, ..old(self)@.objects[id.0 as int].bar->0 }),
                    bar_changed: true,
                    ..old(self)@.objects[id.0 as int]
                }),
            ),
            !found ==> final(self)@.objects == old(self)@.objects,
            final(self)@.resource == old(self)@.resource,
            final(self)@.depth == old(self)@.depth,
    {
        if id.0 < self.objects.len() && self.objects[id.0].alive && self.objects[id.0].bar.is_some() {
            match &mut self.objects[id.0].bar {
                Some(bar) => {
                    observe(bar, Some(value));
                },
                None => {},
            }
            self.objects[id.0].bar_changed = true;
            assert(self@.objects =~= old(self)@.objects.update(
                id.0 as int,
                (Object {
                    bar: Some(Statbar { value, ..old(self)@.objects[id.0 as int].bar->0 }),
                    bar_changed: true,
                    ..old(self)@.objects[id.0 as int]
                }),
            ));
            true
        } else {
            false
        }
    }
}

/// Appends a draw request for `entity` to `out` for each of `rects`, in
/// order.
fn tag_into(entity: ObjectId, rects: &Vec<Rect>, out: &mut Vec<DrawRequest>)
    ensures
        final(out)@ == old(out)@ + rects@.map_values(|rect: Rect| DrawRequest { entity, rect }),
{
    let ghost before = out@;
    let count = rects.len();
    let mut index: usize = 0;
    while index < count
        invariant
            index <= count,
            count == rects@.len(),
            out@ == before + rects@.subrange(0, index as int).map_values(
                |rect: Rect| DrawRequest { entity, rect },
            ),
        decreases count - index,
    {
        out.push(DrawRequest { entity, rect: rects[index] });
        assert(rects@.subrange(0, index + 1) =~= rects@.subrange(0, index as int).push(
            rects@[index as int],
        ));
        index = index + 1;
    }
    assert(rects@.subrange(0, count as int) =~= rects@);
}

impl<F: Fn(Color, Color, Scalar) -> Color> Scene<F> {
    /// The third stage of a cycle: the rectangles of every bar that is
    /// drawn, object after object in the order of their handles, each
    /// bar's in painting order.
    pub fn extract_stat_bars(&self) -> (out: Vec<DrawRequest>)
        requires
            self@.wf(),
        ensures
            self@.extracts(out@),
    {
        let depth = match self.depth {
            Some(depth) => depth.0,
            None => Scalar::from_micros(DEFAULT_Z_DEPTH),
        };
        let mut out: Vec<DrawRequest> = Vec::new();
        let ghost mut parts: Seq<Seq<DrawRequest>> = Seq::empty();
        let count = self.objects.len();
        let mut index: usize = 0;
        while index < count
            invariant
                self@.wf(),
                index <= count,
                count == self@.objects.len(),
                depth == self@.spec_depth(),
                parts.len() == 2 * index,
                forall|j: int| 0 <= j < index ==> self@.bar_draws(j, #[trigger] parts[2 * j]),
                forall|j: int| 0 <= j < index ==> self@.group_draws(j, #[trigger] parts[2 * j + 1]),
                out@ == parts.flatten(),
            decreases count - index,
        {
            let object = &self.objects[index];
            let anchor = match object.anchor {
                Some(anchor) => anchor,
                None => Anchor::origin(),
            };
            assert(self@.objects[index as int].bar is Some ==> self@.objects[index as int].bar->0.wf());
            let ghost before = out@;
            let ghost mut own: Seq<DrawRequest> = Seq::empty();
            if object.alive && object.visible {
                if let Some(bar) = &object.bar {
                    let rects = bar.build(anchor, depth);
                    tag_into(ObjectId(index), &rects, &mut out);
                    proof {
                        own = rects@.map_values(
                            |rect: Rect| DrawRequest { entity: ObjectId(index), rect },
                        );
                        assert(own.map_values(|request: DrawRequest| request.rect) =~= rects@);
                    }
                }
            }
            let ghost between = out@;
            let ghost mut group: Seq<DrawRequest> = Seq::empty();
            if object.alive && object.visible {
                if let Some(bars) = &object.bars {
                    let rects = bars.build_all(anchor, depth);
                    tag_into(ObjectId(index), &rects, &mut out);
                    proof {
                        group = rects@.map_values(
                            |rect: Rect| DrawRequest { entity: ObjectId(index), rect },
                        );
                        assert(group.map_values(|request: DrawRequest| request.rect) =~= rects@);
                    }
                }
            }
            proof {
                assert(between =~= before + own);
                assert(out@ =~= between + group);
                let ghost earlier = parts;
                parts.lemma_flatten_push(own);
                parts = parts.push(own);
                parts.lemma_flatten_push(group);
                parts = parts.push(group);
                assert forall|j: int| 0 <= j < index + 1 implies self@.bar_draws(
                    j,
                    #[trigger] parts[2 * j],
                ) by {
                    if j < index {
                        assert(parts[2 * j] == earlier[2 * j]);
                    }
                }
                assert forall|j: int| 0 <= j < index + 1 implies self@.group_draws(
                    j,
                    #[trigger] parts[2 * j + 1],
                ) by {
                    if j < index {
                        assert(parts[2 * j + 1] == earlier[2 * j + 1]);
                    }
                }
            }
            index = index + 1;
        }
        assert(self@.draws_parts(parts));
        out
    }

    /// Runs one stage. The first two stages change the scene and return no
    /// draw requests; the third leaves the scene as it is and returns the
    /// draw requests of the scene.
    pub fn run_stage(&mut self, stage: StatbarSystem) -> (out: Vec<DrawRequest>)
        requires
            old(self)@.wf(),
        ensures
            final(self)@ == old(self)@.after_stage(stage),
            final(self)@.wf(),
            stage is ExtractSprites ==> old(self)@.extracts(out@),
            !(stage is ExtractSprites) ==> out@ == Seq::<DrawRequest>::empty(),
    {
        proof {
            lemma_stages_keep_scenes_well_formed(self@);
        }
        match stage {
            StatbarSystem::UpdateValues => {
                self.update_statbar_values();
                Vec::new()
            },
            StatbarSystem::UpdateColors => {
                self.update_statbar_colors();
                Vec::new()
            },
            StatbarSystem::ExtractSprites => self.extract_stat_bars(),
        }
    }

    /// One cycle: the three stages in their order, and the marks of change
    /// cleared at the end. Returns the draw requests of the third stage:
    /// the rectangles are built from the values and the colours of this
    /// cycle.
    pub fn run_cycle(&mut self) -> (out: Vec<DrawRequest>)
        requires
            old(self)@.wf(),
        ensures
            old(self)@.after_stage(StatbarSystem::UpdateValues).after_stage(
                StatbarSystem::UpdateColors,
            ).extracts(out@),
            final(self)@ == old(self)@.after_stage(StatbarSystem::UpdateValues).after_stage(
                StatbarSystem::UpdateColors,
            ).settled(),
            final(self)@.wf(),
    {
        proof {
            lemma_stages_keep_scenes_well_formed(self@);
        }
        self.run_stage(StatbarSystem::UpdateValues);
        self.run_stage(StatbarSystem::UpdateColors);
        let out = self.run_stage(StatbarSystem::ExtractSprites);
        self.settle();
        out
    }
}

/// The stages keep a well formed scene well formed.
pub proof fn lemma_stages_keep_scenes_well_formed<F: Fn(Color, Color, Scalar) -> Color>(
    scene: SceneView<F>,
)
    requires
        scene.wf(),
    ensures
        scene.after_values().wf(),
        scene.after_switch().wf(),
        scene.after_lerp().wf(),
        scene.after_colors().wf(),
        scene.settled().wf(),
        scene.after_values().after_colors().wf(),
        scene.after_values().after_colors().settled().wf(),
{
    lemma_stage_keeps_well_formed(scene);
    lemma_stage_keeps_well_formed(scene.after_switch());
    lemma_stage_keeps_well_formed(scene.after_values());
    lemma_stage_keeps_well_formed(scene.after_values().after_switch());
    lemma_stage_keeps_well_formed(scene.after_values().after_colors());
}

proof fn lemma_stage_keeps_well_formed<F: Fn(Color, Color, Scalar) -> Color>(scene: SceneView<F>)
    requires
        scene.wf(),
    ensures
        scene.after_values().wf(),
        scene.after_switch().wf(),
        scene.after_lerp().wf(),
        scene.settled().wf(),
{
    lemma_kept_rules_keep_well_formed(scene, scene.after_values());
    lemma_kept_rules_keep_well_formed(scene, scene.after_switch());
    lemma_kept_rules_keep_well_formed(scene, scene.after_lerp());
    lemma_kept_rules_keep_well_formed(scene, scene.settled());
}

/// Whether `after` has the group of bars of `before`, and a bar whose
/// colour rule is that of the bar of `before` or a fixed colour.
spec fn keeps_rules<F>(before: Object<F>, after: Object<F>) -> bool {
    &&& after.bars == before.bars
    &&& after.bar matches Some(bar) ==> bar.color is Fixed || (before.bar matches Some(former)
        && bar.color == former.color)
}

/// A scene whose objects keep the colour rules of a well formed scene, or
/// take fixed colours, is well formed.
proof fn lemma_kept_rules_keep_well_formed<F: Fn(Color, Color, Scalar) -> Color>(
    before: SceneView<F>,
    after: SceneView<F>,
)
    requires
        before.wf(),
        after.objects.len() == before.objects.len(),
        forall|index: int|
            0 <= index < before.objects.len() ==> keeps_rules(
                before.objects[index],
                #[trigger] after.objects[index],
            ),
    ensures
        after.wf(),
{
    assert forall|index: int| 0 <= index < after.objects.len() implies {
        &&& (#[trigger] after.objects[index]).bar is Some ==> after.objects[index].bar->0.wf()
        &&& after.objects[index].bars is Some ==> after.objects[index].bars->0.wf()
    } by {
        assert(keeps_rules(before.objects[index], after.objects[index]));
        assert(before.objects[index].bar is Some ==> before.objects[index].bar->0.wf());
    }
}

/// What a bar pulls does not depend on the values of the bars: while the
/// first stage is at work, with the objects before `index` written and
/// the others not, the object at `index` reads what it would have read
/// before the stage.
proof fn lemma_reading_ignores_bars<F>(before: SceneView<F>, now: SceneView<F>, index: int)
    requires
        0 <= index < before.objects.len(),
        now.objects.len() == before.objects.len(),
        now.resource == before.resource,
        forall|j: int| 0 <= j < index ==> #[trigger] now.objects[j] == before.object_after_values(j),
        forall|j: int|
            index <= j < before.objects.len() ==> #[trigger] now.objects[j] == before.objects[j],
    ensures
        now.reading(index) == before.reading(index),
{
    assert forall|j: int| 0 <= j < before.objects.len() implies {
        &&& (#[trigger] now.objects[j]).alive == before.objects[j].alive
        &&& now.objects[j].source == before.objects[j].source
        &&& now.objects[j].parent == before.objects[j].parent
        &&& now.objects[j].observers == before.objects[j].observers
        &&& (now.objects[j].bar is Some) == (before.objects[j].bar is Some)
    } by {
        if j < index {
            assert(now.objects[j] == before.object_after_values(j));
        } else {
            assert(now.objects[j] == before.objects[j]);
        }
    }
    let object = before.objects[index];
    match object.observers.spec_effective() {
        ObservationBinding::FromParent => {
            if let Some(parent) = object.parent {
                if parent.0 < before.objects.len() {
                    assert(now.objects[parent.0 as int].alive == before.objects[parent.0 as int].alive);
                }
            }
        },
        ObservationBinding::FromEntity(target) => {
            if target.0 < before.objects.len() {
                assert(now.objects[target.0 as int].alive == before.objects[target.0 as int].alive);
            }
        },
        _ => {},
    }
}

/// Extraction is repeatable: two lists of draw requests extracted from the
/// same scene are equal, where the colour rule of every bar of the scene
/// gives one colour only.
pub proof fn lemma_extraction_is_repeatable<F: Fn(Color, Color, Scalar) -> Color>(
    scene: SceneView<F>,
    first: Seq<DrawRequest>,
    second: Seq<DrawRequest>,
)
    requires
        scene.extracts(first),
        scene.extracts(second),
        forall|index: int|
            0 <= index < scene.objects.len() ==> {
                &&& (#[trigger] scene.objects[index]).bar is Some
                    ==> scene.objects[index].bar->0.is_repeatable()
                &&& scene.objects[index].bars is Some ==> forall|i: int|
                    0 <= i < scene.objects[index].bars->0.bars@.len() ==> (
                    #[trigger] scene.objects[index].bars->0.bars@[i]).is_repeatable()
            },
    ensures
        first == second,
{
    let a = choose|parts: Seq<Seq<DrawRequest>>|
        scene.draws_parts(parts) && first == parts.flatten();
    let b = choose|parts: Seq<Seq<DrawRequest>>|
        scene.draws_parts(parts) && second == parts.flatten();
    assert forall|k: int| 0 <= k < a.len() implies a[k] == b[k] by {
        let index = k / 2;
        let object = scene.objects[index];
        let rects = |request: DrawRequest| request.rect;
        if k == 2 * index {
            assert(scene.bar_draws(index, a[2 * index]));
            assert(scene.bar_draws(index, b[2 * index]));
            if scene.is_shown(index) && object.bar is Some {
                lemma_build_is_repeatable(
                    object.bar->0,
                    scene.spec_anchor(index),
                    scene.spec_depth(),
                    a[k].map_values(rects),
                    b[k].map_values(rects),
                );
                lemma_same_rects_same_requests(index, a[k], b[k]);
            }
        } else {
            assert(k == 2 * index + 1);
            assert(scene.group_draws(index, a[2 * index + 1]));
            assert(scene.group_draws(index, b[2 * index + 1]));
            if scene.is_shown(index) && object.bars is Some {
                lemma_build_all_is_repeatable(
                    object.bars->0,
                    scene.spec_anchor(index),
                    scene.spec_depth(),
                    a[k].map_values(rects),
                    b[k].map_values(rects),
                );
                lemma_same_rects_same_requests(index, a[k], b[k]);
            }
        }
    }
    assert(a =~= b);
}

/// Two lists of requests that name the same object and hold the same
/// rectangles are equal.
proof fn lemma_same_rects_same_requests(index: int, a: Seq<DrawRequest>, b: Seq<DrawRequest>)
    requires
        a.map_values(|request: DrawRequest| request.rect) == b.map_values(
            |request: DrawRequest| request.rect,
        ),
        forall|k: int| 0 <= k < a.len() ==> (#[trigger] a[k]).entity == ObjectId(index as usize),
        forall|k: int| 0 <= k < b.len() ==> (#[trigger] b[k]).entity == ObjectId(index as usize),
    ensures
        a == b,
{
    let rects = |request: DrawRequest| request.rect;
    assert(a.len() == a.map_values(rects).len());
    assert(b.len() == b.map_values(rects).len());
    assert forall|k: int| 0 <= k < a.len() implies a[k] == b[k] by {
        assert(a.map_values(rects)[k] == a[k].rect);
        assert(b.map_values(rects)[k] == b[k].rect);
    }
    assert(a =~= b);
}

/// The stages run in one order: values before colours before rectangles.
pub proof fn lemma_stage_order()
    ensures
        StatbarSystem::UpdateValues.spec_runs_before(StatbarSystem::UpdateColors),
        StatbarSystem::UpdateColors.spec_runs_before(StatbarSystem::ExtractSprites),
        StatbarSystem::UpdateValues.spec_runs_before(StatbarSystem::ExtractSprites),
        forall|a: StatbarSystem, b: StatbarSystem|
            a != b ==> (#[trigger] a.spec_runs_before(b) <==> !b.spec_runs_before(a)),
        forall|a: StatbarSystem| !(#[trigger] a.spec_runs_before(a)),
{
}

/// Of the observer annotations of an object only the one of the highest
/// precedence is read: with another object annotated, the source is that
/// object's, whatever else is annotated and whether or not that object can
/// be found; without it, with the parent annotated, the source is the
/// parent's; and so on down to the global value.
pub proof fn lemma_only_the_effective_binding_is_read<F>(scene: SceneView<F>, index: int)
    requires
        0 <= index < scene.objects.len(),
    ensures
        ({
            let object = scene.objects[index];
            let observers = object.observers;
            &&& observers.entity matches Some(annotation) ==> scene.resolve(index)
                == scene.source_of(annotation.0)
            &&& observers.entity is None && observers.parent is Some ==> scene.resolve(index) == (
            match object.parent {
                Some(parent) => scene.source_of(parent),
                None => None,
            })
            &&& observers.entity is None && observers.parent is None && observers.component
                ==> scene.resolve(index) == object.source
            &&& observers.entity is None && observers.parent is None && !observers.component
                && observers.resource is Some ==> scene.resolve(index) == scene.resource
            &&& observers == Observers::spec_none() ==> scene.resolve(index) is None
        }),
{
}

/// A bar whose source cannot be found, or has not changed, or that has no
/// binding at all, goes through the first stage untouched: its value is
/// neither reset nor marked as written.
pub proof fn lemma_missing_source_keeps_the_bar<F>(scene: SceneView<F>, index: int)
    requires
        0 <= index < scene.objects.len(),
        scene.resolve(index) matches Some(source) ==> !source.changed,
    ensures
        scene.after_values().objects[index] == scene.objects[index],
{
}

/// A bar whose source is found and has changed shows the value of that
/// source after the first stage, and nothing else about it changes.
pub proof fn lemma_changed_source_is_pulled<F>(scene: SceneView<F>, index: int, source: Source)
    requires
        0 <= index < scene.objects.len(),
        scene.objects[index].alive,
        scene.objects[index].bar is Some,
        scene.resolve(index) == Some(source),
        source.changed,
    ensures
        scene.after_values().objects[index].bar == Some(
            Statbar { value: source.value, ..scene.objects[index].bar->0 },
        ),
        scene.after_values().objects[index].bar_changed,
{
}

/// The colour rules see the value that the first stage wrote, and where an
/// object has both rules the blending rule, which runs last, decides the
/// colour.
pub proof fn lemma_last_color_rule_wins<F>(scene: SceneView<F>, index: int)
    requires
        0 <= index < scene.objects.len(),
        scene.recolors(index),
    ensures
        ({
            let object = scene.objects[index];
            let colored = scene.after_colors().objects[index];
            let value = object.bar->0.value;
            &&& colored.bar is Some
            &&& colored.bar->0.value == value
            &&& object.color_lerp is Some ==> colored.bar->0.color == ColorSpec::<F>::Fixed(
                object.color_lerp->0.spec_color_at(value),
            )
            &&& object.color_lerp is None && object.color_switch is Some ==> colored.bar->0.color
                == ColorSpec::<F>::Fixed(object.color_switch->0.spec_color_at(value))
            &&& object.color_lerp is None && object.color_switch is None ==> colored == object
        }),
{
    assert(scene.after_switch().objects[index] == scene.object_after_switch(index));
}

/// Nothing happens where nothing changed: a scene without a mark of change
/// goes through the first two stages as it is. A settled scene is such a
/// scene.
pub proof fn lemma_unchanged_scene_stays<F>(scene: SceneView<F>)
    requires
        forall|index: int|
            0 <= index < scene.objects.len() ==> {
                &&& !(#[trigger] scene.objects[index]).bar_changed
                &&& scene.objects[index].source matches Some(source) ==> !source.changed
            },
        scene.resource matches Some(source) ==> !source.changed,
    ensures
        scene.after_values() == scene,
        scene.after_colors() == scene,
        scene.settled() == scene,
{
    assert forall|index: int| 0 <= index < scene.objects.len() implies scene.reading(index)
        is None by {
        let object = scene.objects[index];
        match object.observers.spec_effective() {
            ObservationBinding::FromParent => {
                if let Some(parent) = object.parent {
                    if parent.0 < scene.objects.len() {
                        assert(!scene.objects[parent.0 as int].bar_changed);
                    }
                }
            },
            ObservationBinding::FromEntity(target) => {
                if target.0 < scene.objects.len() {
                    assert(!scene.objects[target.0 as int].bar_changed);
                }
            },
            _ => {},
        }
    }
    assert(scene.after_values().objects =~= scene.objects);
    assert(scene.after_switch().objects =~= scene.objects);
    assert(scene.after_lerp().objects =~= scene.objects);
    assert(scene.settled().objects =~= scene.objects);
}

/// A cycle that follows a cycle, with nothing changed in between, leaves
/// the scene as the first cycle left it.
pub proof fn lemma_second_cycle_changes_nothing<F>(scene: SceneView<F>)
    ensures
        ({
            let once = scene.after_stage(StatbarSystem::UpdateValues).after_stage(
                StatbarSystem::UpdateColors,
            ).settled();
            once.after_stage(StatbarSystem::UpdateValues).after_stage(
                StatbarSystem::UpdateColors,
            ).settled() == once
        }),
{
    let worked = scene.after_values().after_colors();
    lemma_settled_scene_is_unchanged(worked);
    lemma_unchanged_scene_stays(worked.settled());
}

/// A settled scene carries no mark of change.
pub proof fn lemma_settled_scene_is_unchanged<F>(scene: SceneView<F>)
    ensures
        forall|index: int|
            0 <= index < scene.objects.len() ==> {
                &&& !(#[trigger] scene.settled().objects[index]).bar_changed
                &&& scene.settled().objects[index].source matches Some(source) ==> !source.changed
            },
        scene.settled().resource matches Some(source) ==> !source.changed,
        scene.settled().objects.len() == scene.objects.len(),
{
}

} // verus!
