//! Where a bar's value comes from.
//!
//! A bar shows a value that it pulls, once per update cycle, from one
//! source: a value on its own object, on the parent of its object, on
//! another object named by its handle, or a single global value. An object
//! may carry several observer annotations at once; exactly one of them
//! takes effect, by a fixed order of precedence, and the others are
//! ignored. A source that cannot be found leaves the bar as it is.

use vstd::prelude::*;
use crate::bar::Statbar;
use crate::scalar::Scalar;

verus! {

/// The handle of an object: its place in the table of objects.
#[derive(Clone, Copy, Debug, PartialEq, Eq, Hash, Structural)]
pub struct ObjectId(pub usize);

/// Something that a bar can show: it reports how full it is, from 0.0
/// (empty) to 1.0 (full). A value below or above is held within that range
/// when the bar is drawn.
pub trait StatbarObservable {
    fn get_statbar_value(&self) -> Scalar;
}

impl StatbarObservable for Scalar {
    /// A number reports itself.
    fn get_statbar_value(&self) -> (value: Scalar)
        ensures
            value == *self,
    {
        *self
    }
}

/// Attach this to an object to have its bar observe the value of another
/// object. Takes precedence over every other observer annotation.
#[derive(Clone, Copy, Debug, PartialEq, Eq, Structural)]
pub struct StatbarObserveEntity(pub ObjectId);

/// Attach this to an object to have its bar observe the value of the
/// object's parent. Takes precedence over observing the object's own value
/// and the global value, and yields to [`StatbarObserveEntity`].
#[derive(Clone, Copy, Debug, PartialEq, Eq, Structural)]
pub struct StatbarObserveParent;

/// Attach this to an object to have its bar observe the global value.
/// Yields to every other observer annotation.
#[derive(Clone, Copy, Debug, PartialEq, Eq, Structural)]
pub struct StatbarObserveResource;

impl Default for StatbarObserveResource {
    fn default() -> (out: StatbarObserveResource)
        ensures
            out == StatbarObserveResource,
    {
        StatbarObserveResource
    }
}

/// The one source that a bar pulls its value from.
#[derive(Clone, Copy, Debug, PartialEq, Eq, Structural)]
pub enum ObservationBinding {
    /// No source: the value is only ever set by the caller.
    Local,
    /// The value on the bar's own object.
    FromSelfComponent,
    /// The value on the parent of the bar's object.
    FromParent,
    /// The value on the object with this handle.
    FromEntity(ObjectId),
    /// The global value.
    FromResource,
}

impl ObservationBinding {
    /// The rank of the binding in the order of precedence: a binding of a
    /// higher rank overrides one of a lower rank.
    pub open spec fn spec_precedence(self) -> nat {
        match self {
            ObservationBinding::Local => 0,
            ObservationBinding::FromResource => 1,
            ObservationBinding::FromSelfComponent => 2,
            ObservationBinding::FromParent => 3,
            ObservationBinding::FromEntity(_) => 4,
        }
    }

    /// The rank of the binding in the order of precedence.
    pub fn precedence(self) -> (rank: u8)
        ensures
            rank == self.spec_precedence(),
    {
        match self {
            ObservationBinding::Local => 0,
            ObservationBinding::FromResource => 1,
            ObservationBinding::FromSelfComponent => 2,
            ObservationBinding::FromParent => 3,
            ObservationBinding::FromEntity(_) => 4,
        }
    }
}

/// The observer annotations of one object. Any of them may be present at
/// the same time.
#[derive(Clone, Copy, Debug, PartialEq, Eq, Structural)]
pub struct Observers {
    /// observe the value of another object
    pub entity: Option<StatbarObserveEntity>,
    /// observe the value of the parent
    pub parent: Option<StatbarObserveParent>,
    /// observe the value on the object itself
    pub component: bool,
    /// observe the global value
    pub resource: Option<StatbarObserveResource>,
}

impl Observers {
    /// No annotation at all.
    pub open spec fn spec_none() -> Observers {
        Observers { entity: None, parent: None, component: false, resource: None }
    }

    /// No annotation at all.
    #[verifier::when_used_as_spec(spec_none)]
    pub fn none() -> (out: Observers)
        ensures
            out == Observers::spec_none(),
    {
        Observers { entity: None, parent: None, component: false, resource: None }
    }

    /// Whether `binding` is among the annotations. `Local` stands for the
    /// absence of annotations and is always among them.
    pub open spec fn has(self, binding: ObservationBinding) -> bool {
        match binding {
            ObservationBinding::Local => true,
            ObservationBinding::FromSelfComponent => self.component,
            ObservationBinding::FromParent => self.parent is Some,
            ObservationBinding::FromEntity(target) => self.entity == Some(
                StatbarObserveEntity(target),
            ),
            ObservationBinding::FromResource => self.resource is Some,
        }
    }

    /// The binding that takes effect: another object before the parent, the
    /// parent before the object's own value, that before the global value,
    /// and `Local` where nothing is annotated.
    pub open spec fn spec_effective(self) -> ObservationBinding {
        if let Some(StatbarObserveEntity(target)) = self.entity {
            ObservationBinding::FromEntity(target)
        } else if self.parent is Some {
            ObservationBinding::FromParent
        } else if self.component {
            ObservationBinding::FromSelfComponent
        } else if self.resource is Some {
            ObservationBinding::FromResource
        } else {
            ObservationBinding::Local
        }
    }

    /// The binding that takes effect.
    #[verifier::when_used_as_spec(spec_effective)]
    pub fn effective(self) -> (out: ObservationBinding)
        ensures
            out == self.spec_effective(),
    {
        if let Some(StatbarObserveEntity(target)) = self.entity {
            ObservationBinding::FromEntity(target)
        } else if self.parent.is_some() {
            ObservationBinding::FromParent
        } else if self.component {
            ObservationBinding::FromSelfComponent
        } else if self.resource.is_some() {
            ObservationBinding::FromResource
        } else {
            ObservationBinding::Local
        }
    }
}

/// How the binding of an object stands after an update cycle.
#[derive(Clone, Copy, Debug, PartialEq, Eq, Structural)]
pub enum BindingState {
    /// The bar has no source.
    Local,
    /// The bar has a source, and the source was found this cycle.
    BoundAndFresh,
    /// The bar has a source, and the source was not found this cycle: the
    /// bar shows the last value it pulled.
    BoundAndStale,
}

impl BindingState {
    /// The state after a cycle in which the effective binding was
    /// `binding` and its source was found or not.
    pub open spec fn spec_after_cycle(binding: ObservationBinding, found: bool) -> BindingState {
        if binding is Local {
            BindingState::Local
        } else if found {
            BindingState::BoundAndFresh
        } else {
            BindingState::BoundAndStale
        }
    }

    /// The state after a cycle in which the effective binding was `binding`
    /// and its source was found or not.
    #[verifier::when_used_as_spec(spec_after_cycle)]
    pub fn after_cycle(binding: ObservationBinding, found: bool) -> (out: BindingState)
        ensures
            out == BindingState::spec_after_cycle(binding, found),
    {
        match binding {
            ObservationBinding::Local => BindingState::Local,
            _ => if found {
                BindingState::BoundAndFresh
            } else {
                BindingState::BoundAndStale
            },
        }
    }
}

/// What a bar shows after a pull: the value read from its source, or its
/// former value where no source was found.
pub open spec fn spec_observed<F>(bar: Statbar<F>, reading: Option<Scalar>) -> Statbar<F> {
    match reading {
        Some(value) => Statbar { value, ..bar },
        None => bar,
    }
}

/// Writes the value read from a bar's source into the bar. Where no source
/// was found (`reading` is `None`) the bar keeps its value: it is not reset.
/// Returns whether the bar was written.
pub fn observe<F>(bar: &mut Statbar<F>, reading: Option<Scalar>) -> (written: bool)
    ensures
        *final(bar) == spec_observed(*old(bar), reading),
        written == reading is Some,
{
    match reading {
        Some(value) => {
            bar.value = value;
            true
        },
        None => false,
    }
}

/// Pulls the value that `source` reports into `bar`, as [`observe`] does
/// with a value already read. Where there is no source, the bar stays as it
/// is; where there is one, `get_statbar_value` is called on it, the value
/// it returns becomes the bar's value, and nothing else about the bar
/// changes.
pub fn update_statbar_value<F, S: StatbarObservable>(
    bar: &mut Statbar<F>,
    source: Option<&S>,
) -> (written: bool)
    ensures
        written == source is Some,
        source is None ==> *final(bar) == *old(bar),
        source is Some ==> *final(bar) == spec_observed(*old(bar), Some(final(bar).value)),
        source matches Some(s) ==> call_ensures(
            S::get_statbar_value,
            (s,),
            final(bar).value,
        ),
{
    match source {
        Some(s) => {
            let value = s.get_statbar_value();
            observe(bar, Some(value))
        },
        None => observe(bar, None),
    }
}

/// The effective binding is one of the annotations, and no annotation
/// outranks it.
pub proof fn lemma_effective_has_highest_precedence(observers: Observers, other: ObservationBinding)
    requires
        observers.has(other),
    ensures
        observers.has(observers.spec_effective()),
        other.spec_precedence() <= observers.spec_effective().spec_precedence(),
        other.spec_precedence() == observers.spec_effective().spec_precedence() ==> other
            == observers.spec_effective(),
{
}

/// Without annotations the binding is `Local`, and with any annotation it
/// is not.
pub proof fn lemma_local_is_the_absence_of_observers(observers: Observers)
    ensures
        observers.spec_effective() is Local <==> observers == Observers::spec_none(),
{
}

/// A stale binding does not fall back to `Local` by itself: the state
/// after a cycle is `Local` only where the binding is, whether or not the
/// source was found.
pub proof fn lemma_only_detaching_makes_local(binding: ObservationBinding, found: bool)
    ensures
        BindingState::spec_after_cycle(binding, found) is Local <==> binding is Local,
        !(binding is Local) ==> (BindingState::spec_after_cycle(binding, found) is BoundAndFresh
            <==> found),
{
}

} // verus!
