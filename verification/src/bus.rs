//! The event bus: one publisher, any number of subscribers, each with its
//! own bounded queue of events not yet read.
//!
//! Publishing never waits. A subscriber whose queue is full loses its oldest
//! unread event for each new one, and learns how many it lost the next time
//! it reads. A new subscriber starts with an empty queue: nothing that was
//! published before is replayed. Subscribers do not affect each other.

use crate::message::{events_view, EventMessage, EventView};
use std::collections::VecDeque;
use vstd::prelude::*;

verus! {

/// Why a subscriber got no event.
#[derive(Clone, Copy, Debug, PartialEq, Eq, Structural)]
pub enum RecvError {
    /// Nothing is waiting.
    Empty,
    /// This many events were lost since the last read; the next read
    /// yields the oldest event that is left.
    Lagged(u64),
    /// The subscription does not exist or was given up.
    Closed,
}

/// One subscription as a mathematical value.
pub struct SlotView {
    pub active: bool,
    /// The events not yet read, oldest first.
    pub pending: Seq<EventView>,
    /// How many events were lost since the last read.
    pub missed: u64,
}

/// The bus as a mathematical value. A subscription is known by its index
/// in `slots`; an index is never used twice.
pub struct BusView {
    pub capacity: nat,
    pub slots: Seq<SlotView>,
}

/// The last `capacity` items of a queue; all of them, if there are no more.
pub open spec fn keep_last(all: Seq<EventView>, capacity: nat) -> Seq<EventView> {
    if all.len() > capacity {
        all.subrange(all.len() - capacity, all.len() as int)
    } else {
        all
    }
}

/// The count of lost events after `dropped` more. It stops at `u64::MAX`.
pub open spec fn add_missed(missed: u64, dropped: nat) -> u64 {
    if missed + dropped <= u64::MAX {
        (missed + dropped) as u64
    } else {
        u64::MAX
    }
}

/// A subscription after one event was published.
pub open spec fn slot_publish(slot: SlotView, event: EventView, capacity: nat) -> SlotView {
    if slot.active {
        let all = slot.pending.push(event);
        let kept = keep_last(all, capacity);
        SlotView {
            active: true,
            pending: kept,
            missed: add_missed(slot.missed, (all.len() - kept.len()) as nat),
        }
    } else {
        slot
    }
}

/// The bus after one event was published: every subscription gets it.
pub open spec fn bus_publish(bus: BusView, event: EventView) -> BusView {
    BusView {
        capacity: bus.capacity,
        slots: bus.slots.map_values(|slot: SlotView| slot_publish(slot, event, bus.capacity)),
    }
}

/// The bus after a sequence of events was published, in order.
pub open spec fn bus_publish_all(bus: BusView, events: Seq<EventView>) -> BusView
    decreases events.len(),
{
    if events.len() == 0 {
        bus
    } else {
        bus_publish(bus_publish_all(bus, events.drop_last()), events.last())
    }
}

/// A subscription after one read, and what the read yields.
pub open spec fn slot_recv(slot: SlotView) -> (SlotView, Result<EventView, RecvError>) {
    if !slot.active {
        (slot, Err(RecvError::Closed))
    } else if slot.missed > 0 {
        (SlotView { missed: 0, ..slot }, Err(RecvError::Lagged(slot.missed)))
    } else if slot.pending.len() == 0 {
        (slot, Err(RecvError::Empty))
    } else {
        (SlotView { pending: slot.pending.drop_first(), ..slot }, Ok(slot.pending.first()))
    }
}

/// The bus after subscription `id` read once, and what the read yields.
pub open spec fn bus_recv(bus: BusView, id: nat) -> (BusView, Result<EventView, RecvError>) {
    if id < bus.slots.len() {
        let (slot, outcome) = slot_recv(bus.slots[id as int]);
        (BusView { slots: bus.slots.update(id as int, slot), ..bus }, outcome)
    } else {
        (bus, Err(RecvError::Closed))
    }
}

/// A subscription that has just begun.
pub open spec fn fresh_slot() -> SlotView {
    SlotView { active: true, pending: Seq::empty(), missed: 0 }
}

/// A subscription that was given up.
pub open spec fn closed_slot() -> SlotView {
    SlotView { active: false, pending: Seq::empty(), missed: 0 }
}

/// How many of the subscriptions are active.
pub open spec fn active_count(slots: Seq<SlotView>) -> nat
    decreases slots.len(),
{
    if slots.len() == 0 {
        0
    } else {
        active_count(slots.drop_last()) + if slots.last().active {
            1nat
        } else {
            0nat
        }
    }
}

struct Subscription {
    active: bool,
    pending: VecDeque<EventMessage>,
    missed: u64,
}

impl View for Subscription {
    type V = SlotView;

    closed spec fn view(&self) -> SlotView {
        SlotView {
            active: self.active,
            pending: events_view(self.pending@),
            missed: self.missed,
        }
    }
}

impl Subscription {
    fn deliver(&mut self, event: EventMessage, capacity: usize)
        ensures
            final(self)@ == slot_publish(old(self)@, event@, capacity as nat),
    {
        if !self.active {
            return ;
        }
        self.pending.push_back(event);
        let ghost all = events_view(self.pending@);
        assert(all =~= old(self)@.pending.push(event@));
        assert(all.subrange(0, all.len() as int) =~= all);
        while self.pending.len() > capacity
            invariant
                self.active,
                self.pending@.len() <= all.len(),
                self.pending@.len() == all.len() || self.pending@.len() >= capacity,
                events_view(self.pending@) == all.subrange(
                    all.len() - self.pending@.len(),
                    all.len() as int,
                ),
                self.missed == add_missed(
                    old(self).missed,
                    (all.len() - self.pending@.len()) as nat,
                ),
            decreases self.pending@.len(),
        {
            let ghost before = self.pending@;
            let _ = self.pending.pop_front();
            if self.missed < u64::MAX {
                self.missed = self.missed + 1;
            }
            assert(events_view(self.pending@) =~= events_view(before).subrange(
                1,
                before.len() as int,
            ));
            assert(events_view(self.pending@) =~= all.subrange(
                all.len() - self.pending@.len(),
                all.len() as int,
            ));
        }
    }

    fn take(&mut self) -> (r: Result<EventMessage, RecvError>)
        ensures
            final(self)@ == slot_recv(old(self)@).0,
            match r {
                Ok(event) => slot_recv(old(self)@).1 == Ok::<EventView, RecvError>(event@),
                Err(e) => slot_recv(old(self)@).1 == Err::<EventView, RecvError>(e),
            },
    {
        if !self.active {
            return Err(RecvError::Closed);
        }
        if self.missed > 0 {
            let missed = self.missed;
            self.missed = 0;
            return Err(RecvError::Lagged(missed));
        }
        let ghost before = self.pending@;
        match self.pending.pop_front() {
            Some(event) => {
                assert(events_view(self.pending@) =~= events_view(before).drop_first());
                assert(events_view(before).first() == event@);
                Ok(event)
            },
            None => Err(RecvError::Empty),
        }
    }
}

/// A broadcast channel of events with a bounded queue for each subscriber.
pub struct EventBus {
    capacity: usize,
    slots: Vec<Subscription>,
}

impl View for EventBus {
    type V = BusView;

    closed spec fn view(&self) -> BusView {
        BusView {
            capacity: self.capacity as nat,
            slots: self.slots@.map_values(|slot: Subscription| slot@),
        }
    }
}

impl EventBus {
    /// A bus without subscribers, each of whose subscribers will hold at
    /// most `capacity` unread events.
    pub fn new(capacity: usize) -> (r: Self)
        ensures
            r@ == (BusView { capacity: capacity as nat, slots: Seq::empty() }),
    {
        let bus = EventBus { capacity, slots: Vec::new() };
        assert(bus@.slots =~= Seq::<SlotView>::empty());
        bus
    }

    pub fn capacity(&self) -> (r: usize)
        ensures
            r == self@.capacity,
    {
        self.capacity
    }

    /// Begins a subscription and returns its number. The subscriber sees
    /// only what is published from now on.
    pub fn subscribe(&mut self) -> (id: usize)
        ensures
            id == old(self)@.slots.len(),
            final(self)@ == (BusView { slots: old(self)@.slots.push(fresh_slot()), ..old(self)@ }),
    {
        let id = self.slots.len();
        let slot = Subscription { active: true, pending: VecDeque::new(), missed: 0 };
        assert(slot@.pending =~= Seq::<EventView>::empty());
        self.slots.push(slot);
        assert(self@.slots =~= old(self)@.slots.push(fresh_slot()));
        id
    }

    /// Gives a subscription up; what it had not read is dropped. An
    /// unknown number changes nothing.
    pub fn unsubscribe(&mut self, id: usize)
        ensures
            id < old(self)@.slots.len() ==> final(self)@ == (BusView {
                slots: old(self)@.slots.update(id as int, closed_slot()),
                ..old(self)@
            }),
            id >= old(self)@.slots.len() ==> final(self)@ == old(self)@,
    {
        if id < self.slots.len() {
            let slot = Subscription { active: false, pending: VecDeque::new(), missed: 0 };
            assert(slot@.pending =~= Seq::<EventView>::empty());
            self.slots.set(id, slot);
            assert(self@.slots =~= old(self)@.slots.update(id as int, closed_slot()));
        }
    }

    /// Hands one event to every subscriber and returns how many there are.
    pub fn publish(&mut self, event: EventMessage) -> (receivers: usize)
        ensures
            final(self)@ == bus_publish(old(self)@, event@),
            receivers == active_count(old(self)@.slots),
    {
        let capacity = self.capacity;
        let mut receivers: usize = 0;
        let mut i: usize = 0;
        assert(old(self)@.slots.take(0) =~= Seq::<SlotView>::empty());
        while i < self.slots.len()
            invariant
                i <= self.slots@.len(),
                capacity == self.capacity,
                self.capacity == old(self).capacity,
                self.slots@.len() == old(self).slots@.len(),
                receivers == active_count(old(self)@.slots.take(i as int)),
                receivers <= i,
                forall|j: int|
                    0 <= j < i ==> (#[trigger] self.slots@[j])@ == slot_publish(
                        old(self).slots@[j]@,
                        event@,
                        capacity as nat,
                    ),
                forall|j: int|
                    i <= j < self.slots@.len() ==> (#[trigger] self.slots@[j]) == old(
                        self,
                    ).slots@[j],
            decreases self.slots@.len() - i,
        {
            let copy = event.clone();
            if self.slots[i].active {
                receivers = receivers + 1;
            }
            self.slots[i].deliver(copy, capacity);
            proof {
                let next = old(self)@.slots.take(i + 1);
                assert(next.drop_last() =~= old(self)@.slots.take(i as int));
                assert(next.last() == old(self).slots@[i as int]@);
            }
            i = i + 1;
        }
        assert(old(self)@.slots.take(old(self)@.slots.len() as int) =~= old(self)@.slots);
        assert(self@.slots =~= bus_publish(old(self)@, event@).slots);
        receivers
    }

    /// Reads the next event of subscription `id`.
    pub fn recv(&mut self, id: usize) -> (r: Result<EventMessage, RecvError>)
        ensures
            final(self)@ == bus_recv(old(self)@, id as nat).0,
            match r {
                Ok(event) => bus_recv(old(self)@, id as nat).1 == Ok::<EventView, RecvError>(
                    event@,
                ),
                Err(e) => bus_recv(old(self)@, id as nat).1 == Err::<EventView, RecvError>(e),
            },
    {
        if id < self.slots.len() {
            let r = self.slots[id].take();
            assert(self@.slots =~= old(self)@.slots.update(
                id as int,
                slot_recv(old(self)@.slots[id as int]).0,
            ));
            r
        } else {
            Err(RecvError::Closed)
        }
    }

    /// How many events subscription `id` has not read yet; zero for an
    /// unknown subscription.
    pub fn pending(&self, id: usize) -> (r: usize)
        ensures
            id < self@.slots.len() ==> r == self@.slots[id as int].pending.len(),
            id >= self@.slots.len() ==> r == 0,
    {
        if id < self.slots.len() {
            self.slots[id].pending.len()
        } else {
            0
        }
    }
}

/// The bus after subscription `id` read `n` times, and what the reads
/// yielded, in order.
pub open spec fn bus_recv_n(bus: BusView, id: nat, n: nat) -> (
    BusView,
    Seq<Result<EventView, RecvError>>,
)
    decreases n,
{
    if n == 0 {
        (bus, Seq::empty())
    } else {
        let (before, got) = bus_recv_n(bus, id, (n - 1) as nat);
        let (after, outcome) = bus_recv(before, id);
        (after, got.push(outcome))
    }
}

/// Publishing leaves the number of subscriptions and the capacity as they
/// are, and treats each subscription by itself.
pub proof fn lemma_publish_all_slotwise(bus: BusView, events: Seq<EventView>, id: int)
    requires
        0 <= id < bus.slots.len(),
    ensures
        bus_publish_all(bus, events).capacity == bus.capacity,
        bus_publish_all(bus, events).slots.len() == bus.slots.len(),
        events.len() > 0 ==> bus_publish_all(bus, events).slots[id] == slot_publish(
            bus_publish_all(bus, events.drop_last()).slots[id],
            events.last(),
            bus.capacity,
        ),
    decreases events.len(),
{
    if events.len() > 0 {
        lemma_publish_all_slotwise(bus, events.drop_last(), id);
    }
}

/// A subscriber with room for them all gets every published event: its
/// queue grows by exactly the events published, in the order of publishing,
/// and it loses nothing.
pub proof fn lemma_publish_within_capacity(bus: BusView, id: int, events: Seq<EventView>)
    requires
        0 <= id < bus.slots.len(),
        bus.slots[id].active,
        bus.slots[id].pending.len() + events.len() <= bus.capacity,
    ensures
        bus_publish_all(bus, events).slots[id] == (SlotView {
            pending: bus.slots[id].pending + events,
            ..bus.slots[id]
        }),
    decreases events.len(),
{
    let slot = bus.slots[id];
    if events.len() == 0 {
        assert(slot.pending + events =~= slot.pending);
    } else {
        let earlier = events.drop_last();
        lemma_publish_within_capacity(bus, id, earlier);
        lemma_publish_all_slotwise(bus, events, id);
        assert((slot.pending + earlier).push(events.last()) =~= slot.pending + events);
    }
}

/// A subscriber that has lost nothing reads what is in its queue, oldest
/// first, each event once; the other subscribers are left as they are.
pub proof fn lemma_recv_in_order(bus: BusView, id: nat, n: nat)
    requires
        id < bus.slots.len(),
        bus.slots[id as int].active,
        bus.slots[id as int].missed == 0,
        n <= bus.slots[id as int].pending.len(),
    ensures
        ({
            let slot = bus.slots[id as int];
            let (after, got) = bus_recv_n(bus, id, n);
            &&& got == slot.pending.take(n as int).map_values(
                |e: EventView| Ok::<EventView, RecvError>(e),
            )
            &&& after == BusView {
                slots: bus.slots.update(
                    id as int,
                    SlotView { pending: slot.pending.skip(n as int), ..slot },
                ),
                ..bus
            }
        }),
    decreases n,
{
    let slot = bus.slots[id as int];
    if n == 0 {
        assert(slot.pending.skip(0) =~= slot.pending);
        assert(bus.slots.update(id as int, slot) =~= bus.slots);
        assert(slot.pending.take(0).map_values(|e: EventView| Ok::<EventView, RecvError>(e))
            =~= Seq::<Result<EventView, RecvError>>::empty());
    } else {
        let m = (n - 1) as nat;
        lemma_recv_in_order(bus, id, m);
        let (before, got) = bus_recv_n(bus, id, m);
        let rest = slot.pending.skip(m as int);
        assert(rest.first() == slot.pending[m as int]);
        assert(rest.drop_first() =~= slot.pending.skip(n as int));
        let (after, outcome) = bus_recv(before, id);
        assert(after.slots =~= bus.slots.update(
            id as int,
            SlotView { pending: slot.pending.skip(n as int), ..slot },
        ));
        assert(got.push(outcome) =~= slot.pending.take(n as int).map_values(
            |e: EventView| Ok::<EventView, RecvError>(e),
        ));
    }
}

/// Events published while a subscriber has room for them arrive complete,
/// in order and once: reading as often as there are events yields what was
/// waiting before followed by exactly the published events, and the read
/// after that finds the queue empty.
pub proof fn lemma_delivered_in_order_exactly_once(bus: BusView, id: nat, events: Seq<EventView>)
    requires
        id < bus.slots.len(),
        bus.slots[id as int].active,
        bus.slots[id as int].missed == 0,
        bus.slots[id as int].pending.len() + events.len() <= bus.capacity,
    ensures
        ({
            let waiting = bus.slots[id as int].pending;
            let published = bus_publish_all(bus, events);
            let (after, got) = bus_recv_n(published, id, waiting.len() + events.len());
            &&& got == (waiting + events).map_values(|e: EventView| Ok::<EventView, RecvError>(e))
            &&& bus_recv(after, id).1 == Err::<EventView, RecvError>(RecvError::Empty)
        }),
{
    let waiting = bus.slots[id as int].pending;
    let all = waiting + events;
    let published = bus_publish_all(bus, events);
    lemma_publish_all_slotwise(bus, events, id as int);
    lemma_publish_within_capacity(bus, id as int, events);
    lemma_recv_in_order(published, id, all.len());
    assert(all.take(all.len() as int) =~= all);
    assert(all.skip(all.len() as int) =~= Seq::<EventView>::empty());
}

/// A subscriber whose queue is full loses its oldest unread event to make
/// room for the new one, and the loss is counted.
pub proof fn lemma_full_queue_drops_oldest(slot: SlotView, event: EventView, capacity: nat)
    requires
        slot.active,
        capacity > 0,
        slot.pending.len() == capacity,
    ensures
        slot_publish(slot, event, capacity) == (SlotView {
            active: true,
            pending: slot.pending.drop_first().push(event),
            missed: add_missed(slot.missed, 1),
        }),
{
    let all = slot.pending.push(event);
    assert(keep_last(all, capacity) =~= slot.pending.drop_first().push(event));
}

/// No queue ever holds more than `capacity` events after a publish.
pub proof fn lemma_publish_bounds_queue(slot: SlotView, event: EventView, capacity: nat)
    requires
        slot.active,
    ensures
        slot_publish(slot, event, capacity).pending.len() <= capacity,
{
}

/// The bus after one more subscription began. The new subscription has the
/// number `bus.slots.len()`.
pub open spec fn bus_subscribe(bus: BusView) -> BusView {
    BusView { slots: bus.slots.push(fresh_slot()), ..bus }
}

/// A new subscriber sees nothing of what was published before it
/// subscribed: whatever the bus went through, its first read finds nothing.
pub proof fn lemma_no_replay(bus: BusView)
    ensures
        bus_recv(bus_subscribe(bus), bus.slots.len()).1 == Err::<EventView, RecvError>(
            RecvError::Empty,
        ),
{
}

/// A new subscriber gets what is published after it subscribed, and only
/// that: whatever the bus went through before, the events published from
/// then on, as long as the subscriber has room for them, are exactly what it
/// reads, in order, and the read after them finds nothing.
pub proof fn lemma_late_subscriber_reads_what_follows(bus: BusView, events: Seq<EventView>)
    requires
        events.len() <= bus.capacity,
    ensures
        ({
            let id = bus.slots.len();
            let published = bus_publish_all(bus_subscribe(bus), events);
            let (after, got) = bus_recv_n(published, id, events.len());
            &&& got == events.map_values(|e: EventView| Ok::<EventView, RecvError>(e))
            &&& bus_recv(after, id).1 == Err::<EventView, RecvError>(RecvError::Empty)
        }),
{
    let joined = bus_subscribe(bus);
    lemma_delivered_in_order_exactly_once(joined, bus.slots.len(), events);
    assert(Seq::<EventView>::empty() + events =~= events);
}

} // verus!
