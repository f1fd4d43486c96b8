//! In-process broadcast of countdown events.
//!
//! Every subscriber owns a slot holding the ordered queue of events
//! published since it last drained; publishing appends the same event to
//! every live queue, so each subscriber observes exactly the sequence of
//! transitions the timer committed — no reordering, no drops — and one
//! subscriber's slot never affects another's. Unsubscribing retires the
//! slot (its identifier stays allocated, so other identifiers are stable).

use vstd::prelude::*;

use crate::timer::CountdownEvent;

verus! {

/// What publishing one event does to one slot: append to a live queue,
/// leave a retired slot retired.
pub open spec fn push_event(
    q: Option<Seq<CountdownEvent>>,
    e: CountdownEvent,
) -> Option<Seq<CountdownEvent>> {
    match q {
        Some(s) => Some(s.push(e)),
        None => None,
    }
}

/// The broadcast bus. Viewed as one queue of pending events per subscriber
/// identifier, `None` where the subscriber has detached.
pub struct EventBus {
    queues: Vec<Option<Vec<CountdownEvent>>>,
}

impl View for EventBus {
    type V = Seq<Option<Seq<CountdownEvent>>>;

    closed spec fn view(&self) -> Seq<Option<Seq<CountdownEvent>>> {
        self.queues@.map_values(
            |q: Option<Vec<CountdownEvent>>|
                match q {
                    Some(v) => Some(v@),
                    None => None,
                },
        )
    }
}

impl EventBus {
    /// A bus with no subscribers.
    pub fn new() -> (bus: EventBus)
        ensures
            bus@ == Seq::<Option<Seq<CountdownEvent>>>::empty(),
    {
        let bus = EventBus { queues: Vec::new() };
        proof {
            assert(bus@ =~= Seq::<Option<Seq<CountdownEvent>>>::empty());
        }
        bus
    }

    /// Attach a subscriber; the returned identifier names its queue, which
    /// starts empty.
    pub fn subscribe(&mut self) -> (id: usize)
        ensures
            id == old(self)@.len(),
            final(self)@ == old(self)@.push(Some(Seq::<CountdownEvent>::empty())),
    {
        let id = self.queues.len();
        self.queues.push(Some(Vec::new()));
        proof {
            assert(self@ =~= old(self)@.push(Some(Seq::<CountdownEvent>::empty())));
        }
        id
    }

    /// Detach a subscriber: its slot is retired and receives nothing more.
    /// Detaching an already retired slot is harmless.
    pub fn unsubscribe(&mut self, id: usize)
        requires
            id < old(self)@.len(),
        ensures
            final(self)@ == old(self)@.update(id as int, None),
    {
        self.queues[id] = None;
        proof {
            assert(self@ =~= old(self)@.update(id as int, None));
        }
    }

    /// Broadcast one event: it is appended, in order, to the queue of every
    /// live subscriber, and no retired slot comes back to life.
    pub fn publish(&mut self, e: CountdownEvent)
        ensures
            final(self)@.len() == old(self)@.len(),
            forall|j: int|
                0 <= j < old(self)@.len() ==> final(self)@[j] == push_event(old(self)@[j], e),
    {
        let n = self.queues.len();
        let mut i: usize = 0;
        while i < n
            invariant
                i <= n,
                n == self@.len(),
                old(self)@.len() == n,
                forall|j: int| 0 <= j < i ==> self@[j] == push_event(old(self)@[j], e),
                forall|j: int| i <= j < n ==> self@[j] == old(self)@[j],
            decreases n - i,
        {
            let ghost prev = self@;
            match &mut self.queues[i] {
                Some(q) => {
                    q.push(e);
                },
                None => {},
            }
            proof {
                // Only slot i changed: the slots already served keep their
                // appended event, the slots still to come are untouched.
                assert forall|j: int| 0 <= j <= i implies self@[j] == push_event(
                    old(self)@[j],
                    e,
                ) by {
                    if j < i {
                        assert(self@[j] == prev[j]);
                        assert(prev[j] == push_event(old(self)@[j], e));
                    } else {
                        assert(prev[i as int] == old(self)@[i as int]);
                        assert(self@[i as int] == push_event(prev[i as int], e));
                    }
                }
                assert forall|j: int| i < j < n implies self@[j] == old(self)@[j] by {
                    assert(self@[j] == prev[j]);
                }
            }
            i += 1;
        }
    }

    /// Hand a subscriber the events published to it since it last asked, in
    /// publication order, and leave its queue empty.
    pub fn take_events(&mut self, id: usize) -> (evs: Vec<CountdownEvent>)
        requires
            id < old(self)@.len(),
            old(self)@[id as int] is Some,
        ensures
            Some(evs@) == old(self)@[id as int],
            final(self)@ == old(self)@.update(id as int, Some(Seq::<CountdownEvent>::empty())),
    {
        let taken = self.queues[id].take();
        self.queues[id] = Some(Vec::new());
        proof {
            assert(self@ =~= old(self)@.update(id as int, Some(Seq::<CountdownEvent>::empty())));
        }
        taken.unwrap()
    }
}

} // verus!
