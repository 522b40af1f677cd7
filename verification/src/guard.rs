use vstd::prelude::*;

use crate::config::MonotonicGuardConfig;
use crate::element::{Element, ElementReference, ElementValue, SourceChange};

verus! {

/// MonotonicGuard middleware enforces "Event-Time-Wins" semantics by preventing
/// stale events from overwriting newer state.
///
/// When an Update event arrives, this middleware:
/// 1. Looks up the current state of the element
/// 2. Compares timestamps (configured property or effective_from)
/// 3. Drops the update if the new timestamp <= old timestamp
/// 4. Passes through the update if the new timestamp > old timestamp
///
/// Processing a change takes two steps, because the lookup of the stored element is
/// done by the caller: `begin` says whether a lookup is needed, and `conclude` decides
/// on the update once the caller hands back what the lookup gave.
pub struct MonotonicGuard {
    timestamp_property: String,
    fallback_to_effective_from: bool,
}

/// What the guard needs after seeing a change.
#[derive(Debug, Clone)]
pub enum GuardStep {
    /// The change passes through unchanged; nothing is to be looked up.
    Forward,
    /// The change is an update: the stored version of the element that `reference` names
    /// (the updated element itself) must be looked up, and the update is then judged by
    /// `conclude` with `new_timestamp`.
    LookUpStored { reference: ElementReference, new_timestamp: i64 },
}

/// What happens to a change that the guard has judged.
#[derive(Debug, Clone, Copy, PartialEq, Eq, Structural)]
pub enum Disposition {
    /// The change passes through unchanged.
    Forward,
    /// The change is stale or a duplicate, and is dropped.
    Drop,
}

/// Errors of the guard while processing a change; `E` is the element index's error.
#[derive(Debug)]
pub enum MiddlewareError<E> {
    /// The lookup of the stored element failed.
    IndexError(E),
}

impl MonotonicGuard {
    /// The name of the property that holds an element's timestamp.
    pub closed spec fn property_name(self) -> Seq<char> {
        self.timestamp_property@
    }

    /// Whether an element without an integer timestamp property is dated by its
    /// `effective_from`.
    pub closed spec fn falls_back(self) -> bool {
        self.fallback_to_effective_from
    }

    /// The timestamp by which the guard dates an element: the configured property where it
    /// holds an integer; else `effective_from` (as an `i64`) when falling back; else the
    /// least `i64`, older than anything.
    pub open spec fn timestamp_of(self, element: Element) -> i64 {
        match element.get_properties()@.get(self.property_name()) {
            Some(ElementValue::Integer(ts)) => ts,
            _ => if self.falls_back() {
                element.get_effective_from() as i64
            } else {
                i64::MIN
            },
        }
    }

    /// Whether an update dated `new_timestamp` passes, given the stored version of its
    /// element: always when nothing is stored, else only when strictly newer.
    pub open spec fn admits(self, new_timestamp: i64, stored: Option<Element>) -> bool {
        match stored {
            None => true,
            Some(old) => new_timestamp > self.timestamp_of(old),
        }
    }

    /// The first step on `change`.
    pub open spec fn step_for(self, change: SourceChange) -> GuardStep {
        match change {
            SourceChange::Update { element } => GuardStep::LookUpStored {
                reference: *element.get_reference(),
                new_timestamp: self.timestamp_of(element),
            },
            _ => GuardStep::Forward,
        }
    }

    /// The outcome of the second step, given what the lookup of the stored element gave.
    pub open spec fn outcome<E>(self, new_timestamp: i64, stored: Result<Option<Element>, E>) -> Result<
        Disposition,
        MiddlewareError<E>,
    > {
        match stored {
            Ok(found) => Ok(
                if self.admits(new_timestamp, found) {
                    Disposition::Forward
                } else {
                    Disposition::Drop
                },
            ),
            Err(e) => Err(MiddlewareError::IndexError(e)),
        }
    }

    pub fn new(config: MonotonicGuardConfig) -> (guard: Self)
        ensures
            guard.property_name() == config.timestamp_property@,
            guard.falls_back() == config.fallback_to_effective_from,
    {
        MonotonicGuard {
            timestamp_property: config.timestamp_property,
            fallback_to_effective_from: config.fallback_to_effective_from,
        }
    }

    /// Extracts a timestamp from an element, using the configured property
    /// or falling back to effective_from.
    pub fn extract_timestamp(&self, element: &Element) -> (ts: i64)
        ensures
            ts == self.timestamp_of(*element),
    {
        if let Some(ElementValue::Integer(ts)) = element.get_properties().get(
            self.timestamp_property.as_str(),
        ) {
            return *ts;
        }
        if self.fallback_to_effective_from {
            return element.get_effective_from() as i64;
        }
        i64::MIN
    }

    /// The first step of processing `change`: only an update needs the stored element, and
    /// it is the stored version of the updated element itself that is to be looked up;
    /// inserts, deletes and future changes pass through unchanged.
    pub fn begin(&self, change: &SourceChange) -> (step: GuardStep)
        ensures
            step == self.step_for(*change),
    {
        match change {
            SourceChange::Update { element } => {
                let r = element.get_reference();
                GuardStep::LookUpStored {
                    reference: ElementReference {
                        source_id: r.source_id.clone(),
                        element_id: r.element_id.clone(),
                    },
                    new_timestamp: self.extract_timestamp(element),
                }
            },
            _ => GuardStep::Forward,
        }
    }

    /// The second step of processing an update dated `new_timestamp`, given the result of
    /// looking up the stored version of its element: an update of an element that is not
    /// stored passes; one of a stored element passes only when strictly newer than it; a
    /// failed lookup is reported as an index error.
    pub fn conclude<E>(&self, new_timestamp: i64, stored: Result<Option<Element>, E>) -> (res:
        Result<Disposition, MiddlewareError<E>>)
        ensures
            res == self.outcome(new_timestamp, stored),
    {
        match stored {
            Ok(Some(existing)) => {
                let old_timestamp = self.extract_timestamp(&existing);
                if new_timestamp > old_timestamp {
                    Ok(Disposition::Forward)
                } else {
                    Ok(Disposition::Drop)
                }
            },
            Ok(None) => Ok(Disposition::Forward),
            Err(e) => Err(MiddlewareError::IndexError(e)),
        }
    }
}

/// The updates of one element that pass through, in order, when each is judged against
/// the latest version that passed before it (the stored version `stored` at first).
pub open spec fn forwarded_updates(
    guard: MonotonicGuard,
    stored: Option<Element>,
    updates: Seq<Element>,
) -> Seq<Element>
    decreases updates.len(),
{
    if updates.len() == 0 {
        Seq::empty()
    } else {
        let u = updates[0];
        if guard.admits(guard.timestamp_of(u), stored) {
            seq![u] + forwarded_updates(guard, Some(u), updates.drop_first())
        } else {
            forwarded_updates(guard, stored, updates.drop_first())
        }
    }
}

/// Monotonicity over a sequence of updates of one element, where each update that passes
/// becomes the stored version: the updates that pass are dated strictly increasing, and
/// each is strictly newer than the version stored at the start.
pub proof fn lemma_forwarded_updates_strictly_increase(
    guard: MonotonicGuard,
    stored: Option<Element>,
    updates: Seq<Element>,
)
    ensures
        forall|i: int, j: int|
            0 <= i < j < forwarded_updates(guard, stored, updates).len() ==> guard.timestamp_of(
                #[trigger] forwarded_updates(guard, stored, updates)[i],
            ) < guard.timestamp_of(#[trigger] forwarded_updates(guard, stored, updates)[j]),
        forall|i: int|
            0 <= i < forwarded_updates(guard, stored, updates).len() ==> (stored matches Some(
                s,
            ) ==> guard.timestamp_of(s) < guard.timestamp_of(
                #[trigger] forwarded_updates(guard, stored, updates)[i],
            )),
    decreases updates.len(),
{
    if updates.len() > 0 {
        let u = updates[0];
        let rest = updates.drop_first();
        if guard.admits(guard.timestamp_of(u), stored) {
            lemma_forwarded_updates_strictly_increase(guard, Some(u), rest);
            let tail = forwarded_updates(guard, Some(u), rest);
            let all = forwarded_updates(guard, stored, updates);
            assert(all == seq![u] + tail);
            assert forall|i: int| 0 < i < all.len() implies guard.timestamp_of(u)
                < guard.timestamp_of(#[trigger] all[i]) by {
                assert(all[i] == tail[i - 1]);
            }
            assert forall|i: int, j: int| 0 <= i < j < all.len() implies guard.timestamp_of(
                #[trigger] all[i],
            ) < guard.timestamp_of(#[trigger] all[j]) by {
                assert(all[j] == tail[j - 1]);
                if i > 0 {
                    assert(all[i] == tail[i - 1]);
                } else {
                    assert(all[i] == u);
                }
            }
            assert forall|i: int| 0 <= i < all.len() implies (stored matches Some(s)
                ==> guard.timestamp_of(s) < guard.timestamp_of(#[trigger] all[i])) by {
                if i > 0 {
                    assert(all[i] == tail[i - 1]);
                } else {
                    assert(all[i] == u);
                }
            }
        } else {
            lemma_forwarded_updates_strictly_increase(guard, stored, rest);
            assert(forwarded_updates(guard, stored, updates) == forwarded_updates(
                guard,
                stored,
                rest,
            ));
        }
    }
}

/// An update dated the same as the stored version of its element is dropped; in
/// particular an update delivered a second time is dropped.
pub proof fn lemma_equal_timestamp_dropped<E>(guard: MonotonicGuard, update: Element, stored: Element)
    requires
        guard.timestamp_of(update) == guard.timestamp_of(stored),
    ensures
        guard.outcome(guard.timestamp_of(update), Ok::<Option<Element>, E>(Some(stored)))
            == Ok::<Disposition, MiddlewareError<E>>(Disposition::Drop),
{
}

/// Without the fallback, an update whose timestamp property is missing or not an integer
/// is dropped whenever a version of its element is stored.
pub proof fn lemma_undated_update_dropped_without_fallback<E>(
    guard: MonotonicGuard,
    update: Element,
    stored: Element,
)
    requires
        !guard.falls_back(),
        !(update.get_properties()@.get(guard.property_name()) matches Some(
            ElementValue::Integer(_),
        )),
    ensures
        guard.outcome(guard.timestamp_of(update), Ok::<Option<Element>, E>(Some(stored)))
            == Ok::<Disposition, MiddlewareError<E>>(Disposition::Drop),
{
}

/// The guard lets every insert, delete and future change through without a lookup.
pub proof fn lemma_non_updates_pass(guard: MonotonicGuard, change: SourceChange)
    requires
        !(change is Update),
    ensures
        guard.step_for(change) == GuardStep::Forward,
{
}

/// The properties an element carries, read off its variant.
pub open spec fn carried_properties(e: Element) -> Map<Seq<char>, ElementValue> {
    match e {
        Element::Node { properties, .. } => properties@,
        Element::Relation { properties, .. } => properties@,
    }
}

/// The `effective_from` an element carries, read off its variant.
pub open spec fn carried_effective_from(e: Element) -> u64 {
    match e {
        Element::Node { metadata, .. } => metadata.effective_from,
        Element::Relation { metadata, .. } => metadata.effective_from,
    }
}

/// The reference an element carries in its metadata, read off its variant.
pub open spec fn carried_reference(e: Element) -> ElementReference {
    match e {
        Element::Node { metadata, .. } => metadata.reference,
        Element::Relation { metadata, .. } => metadata.reference,
    }
}

/// An element whose configured property holds the integer `t` is dated `t`, whatever its
/// `effective_from` and whether the guard falls back.
pub proof fn lemma_integer_property_dates_element(guard: MonotonicGuard, e: Element, t: i64)
    requires
        carried_properties(e).contains_key(guard.property_name()),
        carried_properties(e)[guard.property_name()] == ElementValue::Integer(t),
    ensures
        guard.timestamp_of(e) == t,
{
}

/// A guard that falls back dates an element whose configured property is missing or not an
/// integer by its `effective_from`, taken as an `i64`.
pub proof fn lemma_fallback_dates_by_effective_from(guard: MonotonicGuard, e: Element)
    requires
        guard.falls_back(),
        !(carried_properties(e).contains_key(guard.property_name()) && carried_properties(
            e,
        )[guard.property_name()] is Integer),
    ensures
        guard.timestamp_of(e) == carried_effective_from(e) as i64,
{
}

/// A guard that does not fall back dates an element whose configured property is missing or
/// not an integer as the least `i64`, so that it is never newer than anything.
pub proof fn lemma_undated_element_is_oldest(guard: MonotonicGuard, e: Element)
    requires
        !guard.falls_back(),
        !(carried_properties(e).contains_key(guard.property_name()) && carried_properties(
            e,
        )[guard.property_name()] is Integer),
    ensures
        guard.timestamp_of(e) == i64::MIN,
{
}

/// The first step on an update looks up the updated element itself (the reference in its
/// own metadata, for relations as for nodes) and carries the date of the update.
pub proof fn lemma_update_step(guard: MonotonicGuard, e: Element)
    ensures
        guard.step_for(SourceChange::Update { element: e }) == (GuardStep::LookUpStored {
            reference: carried_reference(e),
            new_timestamp: guard.timestamp_of(e),
        }),
{
}

/// An update of an element that is not stored passes, whatever its date.
pub proof fn lemma_unstored_element_update_passes<E>(guard: MonotonicGuard, t: i64)
    ensures
        guard.outcome(t, Ok::<Option<Element>, E>(None)) == Ok::<
            Disposition,
            MiddlewareError<E>,
        >(Disposition::Forward),
{
}

/// An update of a stored element passes exactly when it is dated strictly later than the
/// stored version, and is dropped otherwise.
pub proof fn lemma_stored_element_update_passes_iff_newer<E>(
    guard: MonotonicGuard,
    t: i64,
    stored: Element,
)
    ensures
        guard.outcome(t, Ok::<Option<Element>, E>(Some(stored))) is Ok,
        (guard.outcome(t, Ok::<Option<Element>, E>(Some(stored))) == Ok::<
            Disposition,
            MiddlewareError<E>,
        >(Disposition::Forward)) <==> t > guard.timestamp_of(stored),
        (guard.outcome(t, Ok::<Option<Element>, E>(Some(stored))) == Ok::<
            Disposition,
            MiddlewareError<E>,
        >(Disposition::Drop)) <==> t <= guard.timestamp_of(stored),
{
}

/// Without the fallback, a stored version without an integer timestamp is older than any
/// update dated above the least `i64`: such an update passes.
pub proof fn lemma_undated_stored_element_never_blocks<E>(
    guard: MonotonicGuard,
    t: i64,
    stored: Element,
)
    requires
        !guard.falls_back(),
        !(carried_properties(stored).contains_key(guard.property_name()) && carried_properties(
            stored,
        )[guard.property_name()] is Integer),
        t > i64::MIN,
    ensures
        guard.outcome(t, Ok::<Option<Element>, E>(Some(stored))) == Ok::<
            Disposition,
            MiddlewareError<E>,
        >(Disposition::Forward),
{
}

/// A failed lookup is reported as an index error carrying the lookup's own error.
pub proof fn lemma_failed_lookup_reported<E>(guard: MonotonicGuard, t: i64, e: E)
    ensures
        guard.outcome(t, Err::<Option<Element>, E>(e)) == Err::<Disposition, MiddlewareError<E>>(
            MiddlewareError::IndexError(e),
        ),
{
}

} // verus!
