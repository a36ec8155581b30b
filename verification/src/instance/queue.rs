//! Queues of the values received by attribute servers.
use crate::codec::eenum::{decode_enum_command, enum_command_value};
use crate::json::json_string_parse;
use vstd::prelude::*;

verus! {

/// First-in first-out queue of received values.
pub struct DataQueue<T> {
    /// Queued values, oldest first
    pub queue: Vec<T>,
}

impl<T> DataQueue<T> {
    /// The queued values, oldest first.
    pub open spec fn contents(&self) -> Seq<T> {
        self.queue@
    }

    /// An empty queue.
    pub fn new() -> (r: Self)
        ensures
            r.contents() == Seq::<T>::empty(),
    {
        DataQueue { queue: Vec::new() }
    }

    /// Appends a value at the end of the queue.
    pub fn push(&mut self, v: T)
        ensures
            final(self).contents() == old(self).contents().push(v),
            queue_step(old(self).contents(), final(self).contents(), QueueEvent::Pushed(v)),
    {
        self.queue.push(v);
    }

    /// Removes and returns the oldest value, `None` when the queue is empty.
    pub fn pop(&mut self) -> (r: Option<T>)
        ensures
            old(self).contents().len() == 0 ==> r is None && final(self).contents() == old(
                self,
            ).contents(),
            old(self).contents().len() > 0 ==> r == Some(old(self).contents()[0])
                && final(self).contents() == old(self).contents().drop_first(),
            queue_step(old(self).contents(), final(self).contents(), QueueEvent::Popped(r)),
    {
        if self.queue.len() == 0 {
            return None;
        }
        Some(self.queue.remove(0))
    }

    /// Number of queued values.
    pub fn len(&self) -> (r: usize)
        ensures
            r == self.contents().len(),
    {
        self.queue.len()
    }
}

impl DataQueue<String> {
    /// Queues the value carried by the text of an enum command: the string
    /// it denotes when it is a JSON string, else the text itself.
    pub fn push_enum_command(&mut self, text: String) -> (v: String)
        ensures
            v@ == enum_command_value(text@, json_string_parse(text@)),
            final(self).contents() == old(self).contents().push(v),
            queue_step(old(self).contents(), final(self).contents(), QueueEvent::Pushed(v)),
    {
        let v = decode_enum_command(text);
        let pushed = v.clone();
        self.push(pushed);
        v
    }
}

/// Values come out of a queue in the order they went in: pushing `v` on a
/// queue that holds `q`, then popping, gives the oldest value of `q` when
/// there is one, and `v` otherwise.
pub proof fn lemma_fifo_order<T>(q: Seq<T>, v: T)
    ensures
        q.len() > 0 ==> q.push(v)[0] == q[0] && q.push(v).drop_first() == q.drop_first().push(v),
        q.len() == 0 ==> q.push(v)[0] == v && q.push(v).drop_first() == Seq::<T>::empty(),
{
    if q.len() > 0 {
        assert(q.push(v).drop_first() =~= q.drop_first().push(v));
    } else {
        assert(q.push(v).drop_first() =~= Seq::<T>::empty());
    }
}

/// A change made to a queue.
pub enum QueueEvent<T> {
    /// The value was pushed.
    Pushed(T),
    /// A pop returned this.
    Popped(Option<T>),
}

/// How an event changes the contents of a queue.
pub open spec fn queue_step<T>(before: Seq<T>, after: Seq<T>, event: QueueEvent<T>) -> bool {
    match event {
        QueueEvent::Pushed(v) => after == before.push(v),
        QueueEvent::Popped(r) => if before.len() == 0 {
            r is None && after == before
        } else {
            r == Some(before[0]) && after == before.drop_first()
        },
    }
}

/// A run of events on a queue, from `states[0]` through `states[i + 1]`
/// after `events[i]`.
pub open spec fn queue_run<T>(states: Seq<Seq<T>>, events: Seq<QueueEvent<T>>) -> bool {
    &&& states.len() == events.len() + 1
    &&& forall|i: int|
        0 <= i < events.len() ==> queue_step(states[i], states[i + 1], #[trigger] events[i])
}

/// The contents after the first `k` of the pushes of `pushed`.
proof fn lemma_pushes_fill<T>(states: Seq<Seq<T>>, events: Seq<QueueEvent<T>>, pushed: Seq<T>, k: int)
    requires
        queue_run(states, events),
        states[0] == Seq::<T>::empty(),
        pushed.len() <= events.len(),
        forall|i: int| 0 <= i < pushed.len() ==> #[trigger] events[i] == QueueEvent::Pushed(pushed[i]),
        0 <= k <= pushed.len(),
    ensures
        states[k] == pushed.take(k),
    decreases k,
{
    if k > 0 {
        lemma_pushes_fill(states, events, pushed, k - 1);
        assert(events[k - 1] == QueueEvent::Pushed(pushed[k - 1]));
        assert(queue_step(states[k - 1], states[k], events[k - 1]));
        assert(pushed.take(k) =~= pushed.take(k - 1).push(pushed[k - 1]));
    }
}

/// The contents after the pushes and `j` pops.
proof fn lemma_pops_drain<T>(states: Seq<Seq<T>>, events: Seq<QueueEvent<T>>, pushed: Seq<T>, j: int)
    requires
        queue_run(states, events),
        states[0] == Seq::<T>::empty(),
        pushed.len() <= events.len(),
        forall|i: int| 0 <= i < pushed.len() ==> #[trigger] events[i] == QueueEvent::Pushed(pushed[i]),
        forall|i: int| pushed.len() <= i < events.len() ==> #[trigger] events[i] is Popped,
        0 <= j <= events.len() - pushed.len(),
    ensures
        states[pushed.len() + j] == if j <= pushed.len() {
            pushed.skip(j)
        } else {
            Seq::<T>::empty()
        },
    decreases j,
{
    if j == 0 {
        lemma_pushes_fill(states, events, pushed, pushed.len() as int);
        assert(pushed.take(pushed.len() as int) =~= pushed.skip(0));
    } else {
        let k = pushed.len() + j - 1;
        lemma_pops_drain(states, events, pushed, j - 1);
        assert(events[k] is Popped);
        assert(queue_step(states[k], states[k + 1], events[k]));
        if j <= pushed.len() {
            assert(pushed.skip(j - 1).drop_first() =~= pushed.skip(j));
        }
    }
}

/// Values pushed one by one onto an empty queue come out in the order they
/// went in, then the queue gives nothing.
pub proof fn lemma_pushes_then_pops<T>(states: Seq<Seq<T>>, events: Seq<QueueEvent<T>>, pushed: Seq<T>)
    requires
        queue_run(states, events),
        states[0] == Seq::<T>::empty(),
        pushed.len() <= events.len(),
        forall|i: int| 0 <= i < pushed.len() ==> #[trigger] events[i] == QueueEvent::Pushed(pushed[i]),
        forall|i: int| pushed.len() <= i < events.len() ==> #[trigger] events[i] is Popped,
    ensures
        forall|j: int|
            0 <= j < events.len() - pushed.len() ==> (#[trigger] events[pushed.len() + j] matches QueueEvent::Popped(r)
                && r == if j < pushed.len() {
                Some(pushed[j])
            } else {
                None
            }),
{
    assert forall|j: int| 0 <= j < events.len() - pushed.len() implies (#[trigger] events[pushed.len()
        + j] matches QueueEvent::Popped(r) && r == if j < pushed.len() {
        Some(pushed[j])
    } else {
        None
    }) by {
        let k = pushed.len() + j;
        lemma_pops_drain(states, events, pushed, j);
        assert(events[k] is Popped);
        assert(queue_step(states[k], states[k + 1], events[k]));
    }
}

/// Queue of the commands received by an attribute server, which remembers the
/// last command popped by the user.
pub struct CommandQueue<T> {
    /// New received messages, oldest first
    pub in_queue: Vec<T>,
    /// Last popped value by the user
    pub last_popped_value: Option<T>,
}

impl<T: Clone> CommandQueue<T> {
    /// An empty queue, nothing popped yet.
    pub fn new() -> (r: Self)
        ensures
            r.in_queue@ == Seq::<T>::empty(),
            r.last_popped_value is None,
    {
        CommandQueue { in_queue: Vec::new(), last_popped_value: None }
    }

    /// A new command was received.
    pub fn on_message(&mut self, v: T)
        ensures
            final(self).in_queue@ == old(self).in_queue@.push(v),
            final(self).last_popped_value == old(self).last_popped_value,
    {
        self.in_queue.push(v);
    }

    /// Pops the oldest command, `None` when no command is pending.
    pub fn pop_cmd(&mut self) -> (r: Option<T>)
        ensures
            old(self).in_queue@.len() == 0 ==> r is None && *final(self) == *old(self),
            old(self).in_queue@.len() > 0 ==> r == Some(old(self).in_queue@[0])
                && final(self).in_queue@ == old(self).in_queue@.drop_first(),
            old(self).in_queue@.len() > 0 ==> (final(self).last_popped_value matches Some(last)
                && cloned::<T>(old(self).in_queue@[0], last)),
    {
        if self.in_queue.len() == 0 {
            None
        } else {
            let element = Some(self.in_queue.remove(0));
            self.last_popped_value = element.clone();
            element
        }
    }

    /// The last command popped, `None` before the first pop.
    pub fn get_last_cmd(&self) -> (r: Option<T>)
        ensures
            r is Some <==> self.last_popped_value is Some,
            r matches Some(v) ==> cloned::<T>(self.last_popped_value.unwrap(), v),
    {
        self.last_popped_value.clone()
    }
}

} // verus!
