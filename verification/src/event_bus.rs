//! A broadcast channel with one publisher and any number of subscribers,
//! each with a bounded queue of its own.
//!
//! A full queue never holds the publisher up: the subscriber loses its
//! oldest pending event and the new one is queued.

use crate::log_watcher::{LogEvent, LogEventView};
use vstd::prelude::*;

verus! {

/// The last `n` items of `s`, or all of `s` where it holds fewer.
pub open spec fn keep_last<T>(s: Seq<T>, n: nat) -> Seq<T> {
    if s.len() <= n {
        s
    } else {
        s.skip(s.len() - n)
    }
}

/// The mathematical value of an `EventBus`: its capacity and, slot by slot,
/// the pending events of the subscription that holds the slot, if any.
pub struct BusView {
    pub capacity: nat,
    pub queues: Seq<Option<Seq<LogEventView>>>,
}

impl BusView {
    /// A subscription holds slot `id`.
    pub open spec fn is_active(self, id: int) -> bool {
        0 <= id < self.queues.len() && self.queues[id] is Some
    }

    /// The pending events of the subscription in slot `id`, oldest first.
    pub open spec fn queue(self, id: int) -> Seq<LogEventView>
        recommends
            self.is_active(id),
    {
        self.queues[id]->0
    }

    /// No subscription holds more pending events than the capacity.
    pub open spec fn bounded(self) -> bool {
        forall|id: int| #[trigger]
            self.is_active(id) ==> self.queue(id).len() <= self.capacity
    }

    /// The least slot at or after `from` that no subscription holds; the
    /// number of slots where all of them are held.
    pub open spec fn free_slot_from(self, from: int) -> int
        decreases self.queues.len() - from,
    {
        if from < 0 || from >= self.queues.len() {
            self.queues.len() as int
        } else if self.queues[from] is None {
            from
        } else {
            self.free_slot_from(from + 1)
        }
    }

    /// The slot that the next subscription takes.
    pub open spec fn free_slot(self) -> int {
        self.free_slot_from(0)
    }

    /// The bus after `event` was published: every subscription gets it at
    /// the end of its queue and keeps the newest events up to the capacity.
    pub open spec fn publish(self, event: LogEventView) -> BusView {
        BusView {
            capacity: self.capacity,
            queues: Seq::new(
                self.queues.len(),
                |i: int|
                    match self.queues[i] {
                        Some(q) => Some(keep_last(q.push(event), self.capacity)),
                        None => None,
                    },
            ),
        }
    }

    /// The bus with the queue `q` in slot `id`, which may be one past the
    /// last slot.
    pub open spec fn with_slot(self, id: int, q: Option<Seq<LogEventView>>) -> BusView {
        BusView {
            capacity: self.capacity,
            queues: if id == self.queues.len() {
                self.queues.push(q)
            } else {
                self.queues.update(id, q)
            },
        }
    }

    /// The bus after a new subscription was made: it takes the free slot
    /// and starts with nothing pending.
    pub open spec fn subscribe(self) -> BusView {
        self.with_slot(self.free_slot(), Some(Seq::empty()))
    }

    /// The bus after the subscription in slot `id` was given up.
    pub open spec fn unsubscribe(self, id: int) -> BusView {
        if self.is_active(id) {
            self.with_slot(id, None)
        } else {
            self
        }
    }

    /// The bus after the subscription in slot `id` took its oldest event.
    pub open spec fn poll(self, id: int) -> BusView {
        if self.is_active(id) && self.queue(id).len() > 0 {
            self.with_slot(id, Some(self.queue(id).drop_first()))
        } else {
            self
        }
    }

    /// The bus after the events of `events` were published in order.
    pub open spec fn publish_all(self, events: Seq<LogEventView>) -> BusView
        decreases events.len(),
    {
        if events.len() == 0 {
            self
        } else {
            self.publish_all(events.drop_last()).publish(events.last())
        }
    }
}

/// Putting a queue within the capacity into a slot keeps the bus bounded.
pub proof fn lemma_with_slot_bounded(bus: BusView, id: int, q: Option<Seq<LogEventView>>)
    requires
        bus.bounded(),
        0 <= id <= bus.queues.len(),
        q matches Some(events) ==> events.len() <= bus.capacity,
    ensures
        bus.with_slot(id, q).bounded(),
{
    let after = bus.with_slot(id, q);
    assert forall|k: int| #[trigger] after.is_active(k) implies after.queue(k).len()
        <= after.capacity by {
        if k != id {
            assert(bus.is_active(k));
        }
    }
}

/// The free slot is a slot that no subscription holds, or one past the last.
pub proof fn lemma_free_slot_from(bus: BusView, from: int)
    requires
        0 <= from <= bus.queues.len(),
    ensures
        from <= bus.free_slot_from(from) <= bus.queues.len(),
        !bus.is_active(bus.free_slot_from(from)),
        forall|k: int| from <= k < bus.free_slot_from(from) ==> bus.is_active(k),
    decreases bus.queues.len() - from,
{
    if from < bus.queues.len() && bus.queues[from] is Some {
        lemma_free_slot_from(bus, from + 1);
    }
}

/// Keeping the newest `n` items and then adding one keeps the same newest
/// `n` as adding it first.
pub proof fn lemma_keep_last_push<T>(s: Seq<T>, x: T, n: nat)
    ensures
        keep_last(keep_last(s, n).push(x), n) == keep_last(s.push(x), n),
{
    assert(keep_last(keep_last(s, n).push(x), n) =~= keep_last(s.push(x), n));
}

/// Publishing changes neither the capacity nor which slots are held.
pub proof fn lemma_publish_all_shape(bus: BusView, events: Seq<LogEventView>)
    ensures
        bus.publish_all(events).capacity == bus.capacity,
        bus.publish_all(events).queues.len() == bus.queues.len(),
        forall|id: int| bus.publish_all(events).is_active(id) == bus.is_active(id),
    decreases events.len(),
{
    if events.len() > 0 {
        lemma_publish_all_shape(bus, events.drop_last());
    }
}

/// A subscription never receives what was published before it was made:
/// whatever was published earlier, after the events `later` its queue
/// holds the newest of `later`, up to the capacity, and nothing else.
pub proof fn law_subscription_sees_only_later_events(
    bus: BusView,
    earlier: Seq<LogEventView>,
    later: Seq<LogEventView>,
)
    ensures
        ({
            let at_subscribe = bus.publish_all(earlier);
            let id = at_subscribe.free_slot();
            let after = at_subscribe.subscribe().publish_all(later);
            after.is_active(id) && after.queue(id) == keep_last(later, bus.capacity)
        }),
    decreases later.len(),
{
    let at_subscribe = bus.publish_all(earlier);
    let id = at_subscribe.free_slot();
    let subscribed = at_subscribe.subscribe();
    lemma_publish_all_shape(bus, earlier);
    lemma_free_slot_from(at_subscribe, 0);
    assert(subscribed.is_active(id));
    lemma_publish_all_shape(subscribed, later);
    if later.len() == 0 {
        assert(subscribed.queue(id) =~= keep_last(later, bus.capacity));
    } else {
        law_subscription_sees_only_later_events(bus, earlier, later.drop_last());
        lemma_publish_all_shape(subscribed, later.drop_last());
        lemma_keep_last_push(later.drop_last(), later.last(), bus.capacity);
        assert(later.drop_last().push(later.last()) =~= later);
    }
}

/// What a subscription receives depends on its own queue alone: two buses
/// of one capacity that agree on the queue of `id` agree on it after the
/// same event, however full the queues of the other subscriptions are.
pub proof fn law_publish_reaches_each_subscription_alone(
    a: BusView,
    b: BusView,
    id: int,
    event: LogEventView,
)
    requires
        a.capacity == b.capacity,
        a.is_active(id),
        b.is_active(id),
        a.queue(id) == b.queue(id),
    ensures
        a.publish(event).is_active(id),
        b.publish(event).is_active(id),
        a.publish(event).queue(id) == b.publish(event).queue(id),
        a.publish(event).queue(id) == keep_last(a.queue(id).push(event), a.capacity),
{
}

/// The values of the events of `q`, in order.
pub open spec fn events_view(q: Seq<LogEvent>) -> Seq<LogEventView> {
    q.map_values(|e: LogEvent| e@)
}

/// Appends `event` to `queue` and drops the oldest events over `capacity`.
fn push_bounded(queue: &mut Vec<LogEvent>, event: LogEvent, capacity: usize)
    ensures
        events_view(final(queue)@) == keep_last(
            events_view(old(queue)@).push(event@),
            capacity as nat,
        ),
{
    queue.push(event);
    assert(events_view(queue@) =~= events_view(old(queue)@).push(event@));
    let ghost full = events_view(queue@);
    while queue.len() > capacity
        invariant
            full == events_view(old(queue)@).push(event@),
            queue@.len() <= full.len(),
            queue@.len() == full.len() || queue@.len() >= capacity,
            events_view(queue@) == full.skip(full.len() - queue@.len()),
        decreases queue.len(),
    {
        let ghost before = events_view(queue@);
        queue.remove(0);
        assert(events_view(queue@) =~= before.skip(1));
        assert(before.skip(1) =~= full.skip(full.len() - before.len() + 1));
    }
    assert(full.skip(0) =~= full);
    assert(events_view(queue@).len() == queue@.len());
}

/// The handle of one subscription: the slot of the bus that it holds.
#[derive(Debug)]
pub struct Subscription {
    slot: usize,
}

impl Subscription {
    /// The slot that the subscription holds.
    pub closed spec fn id(&self) -> int {
        self.slot as int
    }
}

/// The bus: its capacity and, per slot, the queue of the subscription that
/// holds the slot.
pub struct EventBus {
    capacity: usize,
    slots: Vec<Option<Vec<LogEvent>>>,
}

/// The value of one slot.
pub open spec fn slot_view(slot: Option<Vec<LogEvent>>) -> Option<Seq<LogEventView>> {
    match slot {
        Some(q) => Some(events_view(q@)),
        None => None,
    }
}

impl View for EventBus {
    type V = BusView;

    closed spec fn view(&self) -> BusView {
        BusView {
            capacity: self.capacity as nat,
            queues: self.slots@.map_values(|slot: Option<Vec<LogEvent>>| slot_view(slot)),
        }
    }
}

impl EventBus {
    /// A bus without subscriptions whose queues will hold up to `capacity`
    /// events each.
    pub fn new(capacity: usize) -> (bus: EventBus)
        ensures
            bus@.capacity == capacity,
            bus@.queues.len() == 0,
            bus@.bounded(),
    {
        EventBus { capacity, slots: Vec::new() }
    }

    /// Delivers `event` to every subscription. A subscription whose queue
    /// is full loses its oldest pending event.
    pub fn publish(&mut self, event: &LogEvent)
        ensures
            final(self)@ == old(self)@.publish(event@),
            final(self)@.bounded(),
    {
        let mut i: usize = 0;
        while i < self.slots.len()
            invariant
                i <= self.slots.len(),
                self.capacity == old(self).capacity,
                self.slots@.len() == old(self).slots@.len(),
                forall|j: int| 0 <= j < i ==> slot_view(#[trigger] self.slots@[j]) == old(self)@.publish(event@).queues[j],
                forall|j: int| i <= j < self.slots@.len() ==> self.slots@[j] == old(self).slots@[j],
            decreases self.slots.len() - i,
        {
            let capacity = self.capacity;
            match &mut self.slots[i] {
                Some(queue) => {
                    push_bounded(queue, event.duplicate(), capacity);
                },
                None => {},
            }
            i = i + 1;
        }
        assert(self@.queues =~= old(self)@.publish(event@).queues);
    }

    /// Registers a new subscription. Its queue starts empty, so it sees
    /// only what is published from now on.
    pub fn subscribe(&mut self) -> (sub: Subscription)
        ensures
            sub.id() == old(self)@.free_slot(),
            !old(self)@.is_active(sub.id()),
            final(self)@ == old(self)@.subscribe(),
            old(self)@.bounded() ==> final(self)@.bounded(),
    {
        let mut i: usize = 0;
        while i < self.slots.len() && self.slots[i].is_some()
            invariant
                i <= self.slots.len(),
                *self == *old(self),
                self@.free_slot() == self@.free_slot_from(i as int),
            decreases self.slots.len() - i,
        {
            assert(self@.queues[i as int] is Some);
            i = i + 1;
        }
        proof {
            if i < self.slots.len() {
                assert(self@.queues[i as int] is None);
            }
            assert(old(self)@.free_slot() == i);
        }
        if i < self.slots.len() {
            self.slots.set(i, Some(Vec::new()));
        } else {
            self.slots.push(Some(Vec::new()));
        }
        proof {
            let empty: Seq<LogEvent> = Seq::empty();
            assert(events_view(empty) =~= Seq::<LogEventView>::empty());
            assert(self@.queues =~= old(self)@.subscribe().queues);
            if old(self)@.bounded() {
                lemma_with_slot_bounded(old(self)@, i as int, Some(Seq::empty()));
            }
        }
        Subscription { slot: i }
    }

    /// Gives up the subscription `sub` and releases its queue. Giving up a
    /// subscription that is not held changes nothing.
    pub fn unsubscribe(&mut self, sub: Subscription)
        ensures
            final(self)@ == old(self)@.unsubscribe(sub.id()),
            old(self)@.bounded() ==> final(self)@.bounded(),
    {
        if sub.slot < self.slots.len() {
            self.slots.set(sub.slot, None);
            proof {
                assert(self@.queues =~= old(self)@.unsubscribe(sub.id()).queues);
                if old(self)@.bounded() && old(self)@.is_active(sub.id()) {
                    lemma_with_slot_bounded(old(self)@, sub.id(), None);
                }
            }
        }
    }

    /// Takes the oldest pending event of the subscription `sub`: `None`
    /// where nothing is pending or the subscription is not held.
    pub fn poll(&mut self, sub: &Subscription) -> (event: Option<LogEvent>)
        ensures
            final(self)@ == old(self)@.poll(sub.id()),
            match event {
                Some(e) => old(self)@.is_active(sub.id()) && old(self)@.queue(sub.id()).len() > 0
                    && e@ == old(self)@.queue(sub.id())[0],
                None => !old(self)@.is_active(sub.id()) || old(self)@.queue(sub.id()).len() == 0,
            },
            old(self)@.bounded() ==> final(self)@.bounded(),
    {
        if sub.slot >= self.slots.len() {
            return None;
        }
        let ghost before = old(self)@.queue(sub.id());
        let event = match &mut self.slots[sub.slot] {
            Some(queue) => {
                if queue.len() == 0 {
                    None
                } else {
                    let ghost pending = events_view(queue@);
                    let e = queue.remove(0);
                    assert(events_view(queue@) =~= pending.drop_first());
                    assert(e@ == pending[0]);
                    Some(e)
                }
            },
            None => None,
        };
        proof {
            assert(self@.queues =~= old(self)@.poll(sub.id()).queues);
            if old(self)@.bounded() && event is Some {
                lemma_with_slot_bounded(old(self)@, sub.id(), Some(before.drop_first()));
            }
        }
        event
    }

    /// Whether `sub` is a subscription that the bus holds.
    pub fn is_subscribed(&self, sub: &Subscription) -> (r: bool)
        ensures
            r == self@.is_active(sub.id()),
    {
        sub.slot < self.slots.len() && self.slots[sub.slot].is_some()
    }

    /// How many events the subscription `sub` has pending.
    pub fn pending(&self, sub: &Subscription) -> (n: usize)
        ensures
            n == if self@.is_active(sub.id()) {
                self@.queue(sub.id()).len()
            } else {
                0
            },
    {
        if sub.slot >= self.slots.len() {
            return 0;
        }
        match &self.slots[sub.slot] {
            Some(queue) => queue.len(),
            None => 0,
        }
    }

    /// How many events each queue holds at most.
    pub fn capacity(&self) -> (n: usize)
        ensures
            n == self@.capacity,
    {
        self.capacity
    }
}

} // verus!
