//! Registry of the callbacks triggered by the commands an attribute receives.
use std::collections::HashMap;
use vstd::prelude::*;

verus! {

broadcast use vstd::std_specs::hash::group_hash_axioms;

/// Identifier of a registered callback.
pub type CallbackId = u64;

/// Callbacks of an attribute, by identifier, and the next identifier to give.
pub struct CallbackRegistry<E> {
    /// Registered callbacks
    pub callbacks: HashMap<CallbackId, E>,
    /// Identifier given to the next callback
    pub next_callback_id: CallbackId,
}

impl<E> CallbackRegistry<E> {
    /// The registered callbacks by identifier.
    pub open spec fn entries(&self) -> Map<CallbackId, E> {
        self.callbacks@
    }

    /// Every registered identifier was given before the next one, and there
    /// are finitely many.
    pub open spec fn wf(&self) -> bool {
        &&& forall|id: CallbackId|
            #[trigger] self.entries().contains_key(id) ==> id < self.next_callback_id
        &&& self.entries().dom().finite()
    }

    /// What the laws of the registry speak of: the registered identifiers
    /// and the next identifier to give.
    pub open spec fn snapshot(&self) -> (Set<CallbackId>, nat) {
        (self.entries().dom(), self.next_callback_id as nat)
    }

    /// An empty registry; identifiers start at 0.
    pub fn new() -> (r: Self)
        ensures
            r.wf(),
            r.entries() == Map::<CallbackId, E>::empty(),
            r.next_callback_id == 0,
    {
        CallbackRegistry { callbacks: HashMap::new(), next_callback_id: 0 }
    }

    /// Registers a callback under a new identifier and returns it.
    pub fn add_callback(&mut self, entry: E) -> (r: CallbackId)
        requires
            old(self).wf(),
            old(self).next_callback_id < u64::MAX,
        ensures
            final(self).wf(),
            r == old(self).next_callback_id,
            !old(self).entries().contains_key(r),
            final(self).entries() == old(self).entries().insert(r, entry),
            final(self).next_callback_id == r + 1,
            registry_step(old(self).snapshot(), final(self).snapshot(), RegistryEvent::Added(r)),
    {
        let callback_id = self.next_callback_id;
        self.next_callback_id = self.next_callback_id + 1;
        self.callbacks.insert(callback_id, entry);
        assert(self.callbacks@ == old(self).callbacks@.insert(callback_id, entry));
        assert forall|id: CallbackId| #[trigger] self.entries().contains_key(id) implies id
            < self.next_callback_id by {
            if id != callback_id {
                assert(old(self).entries().contains_key(id));
            }
        }
        callback_id
    }

    /// Removes a callback; tells whether it was registered.
    pub fn remove_callback(&mut self, callback_id: CallbackId) -> (r: bool)
        requires
            old(self).wf(),
        ensures
            final(self).wf(),
            r == old(self).entries().contains_key(callback_id),
            final(self).entries() == old(self).entries().remove(callback_id),
            final(self).next_callback_id == old(self).next_callback_id,
            registry_step(
                old(self).snapshot(),
                final(self).snapshot(),
                RegistryEvent::Removed(callback_id, r),
            ),
    {
        let removed = self.callbacks.remove(&callback_id);
        assert forall|id: CallbackId| #[trigger] self.entries().contains_key(id) implies id
            < self.next_callback_id by {
            assert(old(self).entries().contains_key(id));
        }
        removed.is_some()
    }

    /// Removes every callback.
    pub fn clear_callbacks(&mut self)
        requires
            old(self).wf(),
        ensures
            final(self).wf(),
            final(self).entries() == Map::<CallbackId, E>::empty(),
            final(self).next_callback_id == old(self).next_callback_id,
            registry_step(old(self).snapshot(), final(self).snapshot(), RegistryEvent::Cleared),
    {
        self.callbacks.clear();
    }

    /// Number of registered callbacks.
    pub fn callback_count(&self) -> (r: usize)
        ensures
            r == self.entries().len(),
    {
        self.callbacks.len()
    }
}

/// A change made to a registry.
pub enum RegistryEvent {
    /// A callback was added under the identifier.
    Added(CallbackId),
    /// A callback was removed under the identifier; whether there was one.
    Removed(CallbackId, bool),
    /// Every callback was removed.
    Cleared,
}

/// How an event changes the registered identifiers and the next identifier.
pub open spec fn registry_step(
    before: (Set<CallbackId>, nat),
    after: (Set<CallbackId>, nat),
    event: RegistryEvent,
) -> bool {
    match event {
        RegistryEvent::Added(id) => {
            &&& id == before.1
            &&& !before.0.contains(id)
            &&& after.0 == before.0.insert(id)
            &&& after.1 == before.1 + 1
        },
        RegistryEvent::Removed(id, found) => {
            &&& found == before.0.contains(id)
            &&& after.0 == before.0.remove(id)
            &&& after.1 == before.1
        },
        RegistryEvent::Cleared => {
            &&& after.0 == Set::<CallbackId>::empty()
            &&& after.1 == before.1
        },
    }
}

/// A run of events, from `states[0]` through `states[i + 1]` after `events[i]`.
pub open spec fn registry_run(states: Seq<(Set<CallbackId>, nat)>, events: Seq<RegistryEvent>) -> bool {
    &&& states.len() == events.len() + 1
    &&& forall|i: int|
        0 <= i < events.len() ==> registry_step(states[i], states[i + 1], #[trigger] events[i])
}

/// Number of additions among the events.
pub open spec fn added_count(events: Seq<RegistryEvent>) -> nat
    decreases events.len(),
{
    if events.len() == 0 {
        0
    } else {
        added_count(events.drop_last()) + if events.last() is Added {
            1nat
        } else {
            0nat
        }
    }
}

/// Number of removals that found a callback among the events.
pub open spec fn removed_count(events: Seq<RegistryEvent>) -> nat
    decreases events.len(),
{
    if events.len() == 0 {
        0
    } else {
        removed_count(events.drop_last()) + if events.last() matches RegistryEvent::Removed(
            _,
            true,
        ) {
            1nat
        } else {
            0nat
        }
    }
}

/// The next identifier counts the additions made since it was `start`.
proof fn lemma_next_counts_additions(
    states: Seq<(Set<CallbackId>, nat)>,
    events: Seq<RegistryEvent>,
    k: int,
)
    requires
        registry_run(states, events),
        0 <= k <= events.len(),
    ensures
        states[k].1 == states[0].1 + added_count(events.take(k)),
    decreases k,
{
    if k > 0 {
        lemma_next_counts_additions(states, events, k - 1);
        assert(events.take(k).drop_last() =~= events.take(k - 1));
        assert(registry_step(states[k - 1], states[k], events[k - 1]));
    }
}

/// The next identifier never goes down along a run.
proof fn lemma_next_grows(states: Seq<(Set<CallbackId>, nat)>, events: Seq<RegistryEvent>, i: int, j: int)
    requires
        registry_run(states, events),
        0 <= i <= j <= events.len(),
    ensures
        states[i].1 <= states[j].1,
    decreases j - i,
{
    if i < j {
        lemma_next_grows(states, events, i, j - 1);
        assert(registry_step(states[j - 1], states[j], events[j - 1]));
    }
}

/// Callback identifiers count up from where the registry stood: the
/// identifier of an addition is that start plus the number of additions
/// before it, so identifiers grow strictly and are never given twice. A new
/// registry starts at 0.
pub proof fn lemma_callback_ids_count_up(states: Seq<(Set<CallbackId>, nat)>, events: Seq<RegistryEvent>)
    requires
        registry_run(states, events),
    ensures
        forall|i: int|
            0 <= i < events.len() ==> (#[trigger] events[i] matches RegistryEvent::Added(id) ==> id
                == states[0].1 + added_count(events.take(i))),
        forall|i: int, j: int|
            0 <= i < j < events.len() ==> (#[trigger] events[i] matches RegistryEvent::Added(a) ==> (
            #[trigger] events[j] matches RegistryEvent::Added(b) ==> a < b)),
        states.last().1 == states[0].1 + added_count(events),
{
    assert forall|i: int|
        0 <= i < events.len() implies (#[trigger] events[i] matches RegistryEvent::Added(id) ==> id
            == states[0].1 + added_count(events.take(i))) by {
        lemma_next_counts_additions(states, events, i);
        assert(registry_step(states[i], states[i + 1], events[i]));
    }
    assert forall|i: int, j: int|
        0 <= i < j < events.len() implies (#[trigger] events[i] matches RegistryEvent::Added(a) ==> (
        #[trigger] events[j] matches RegistryEvent::Added(b) ==> a < b)) by {
        assert(registry_step(states[i], states[i + 1], events[i]));
        assert(registry_step(states[j], states[j + 1], events[j]));
        lemma_next_grows(states, events, i + 1, j);
    }
    lemma_next_counts_additions(states, events, events.len() as int);
    assert(events.take(events.len() as int) =~= events);
}

/// The registered identifiers after some events that clear nothing.
proof fn lemma_count_step(states: Seq<(Set<CallbackId>, nat)>, events: Seq<RegistryEvent>, k: int)
    requires
        registry_run(states, events),
        states[0].0 == Set::<CallbackId>::empty(),
        forall|i: int| 0 <= i < events.len() ==> !(#[trigger] events[i] is Cleared),
        0 <= k <= events.len(),
    ensures
        states[k].0.finite(),
        states[k].0.len() + removed_count(events.take(k)) == added_count(events.take(k)),
    decreases k,
{
    if k > 0 {
        lemma_count_step(states, events, k - 1);
        assert(events.take(k).drop_last() =~= events.take(k - 1));
        assert(registry_step(states[k - 1], states[k], events[k - 1]));
        assert(!(events[k - 1] is Cleared));
    }
}

/// After the callbacks are cleared, the number of callbacks is the number
/// of additions minus the number of removals that found a callback.
pub proof fn lemma_callback_count_after_clear(states: Seq<(Set<CallbackId>, nat)>, events: Seq<RegistryEvent>)
    requires
        registry_run(states, events),
        states[0].0 == Set::<CallbackId>::empty(),
        forall|i: int| 0 <= i < events.len() ==> !(#[trigger] events[i] is Cleared),
    ensures
        states.last().0.len() == added_count(events) - removed_count(events),
        removed_count(events) <= added_count(events),
{
    lemma_count_step(states, events, events.len() as int);
    assert(events.take(events.len() as int) =~= events);
}

/// Whether a callback is triggered by a command: always without a
/// condition, otherwise when its condition holds for the command.
pub fn should_trigger(condition_result: Option<bool>) -> (r: bool)
    ensures
        r == match condition_result {
            Some(c) => c,
            None => true,
        },
{
    match condition_result {
        Some(c) => c,
        None => true,
    }
}

/// A callback triggered by the commands of an attribute, with the condition
/// that filters them, if any.
pub struct CallbackEntry<C, P> {
    pub callback: C,
    pub condition: Option<P>,
}

/// Text of the `Debug` rendering of an entry: the functions are not shown.
pub open spec fn callback_entry_text(has_condition: bool) -> Seq<char> {
    "CallbackEntry { callback: \"<async callback function>\", condition: "@ + if has_condition {
        "\"<condition function>\""@
    } else {
        "\"None\""@
    } + " }"@
}

impl<C, P> CallbackEntry<C, P> {
    /// Renders the entry as its `Debug` implementation does.
    pub fn debug_text(&self) -> (r: String)
        ensures
            r@ == callback_entry_text(self.condition is Some),
    {
        let mut t = "CallbackEntry { callback: \"<async callback function>\", condition: ".to_owned();
        if self.condition.is_some() {
            t.append("\"<condition function>\"");
        } else {
            t.append("\"None\"");
        }
        t.append(" }");
        t
    }
}

} // verus!
