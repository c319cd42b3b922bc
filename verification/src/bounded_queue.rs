//! A bounded queue: what has come of a stream and was not polled yet.
use std::collections::HashMap;
use crossbeam_queue::ArrayQueue;
use vstd::prelude::*;

verus! {

broadcast use vstd::std_specs::hash::group_hash_axioms;

/// The bounded queue of `crossbeam_queue`.
#[verifier::external_type_specification]
#[verifier::external_body]
#[verifier::reject_recursive_types(T)]
pub struct ExArrayQueue<T>(ArrayQueue<T>);

/// The tickets in a queue, the oldest first.
pub uninterp spec fn queued(q: ArrayQueue<u64>) -> Seq<u64>;

/// How many tickets a queue was made for.
pub uninterp spec fn room(q: ArrayQueue<u64>) -> nat;

/// `ArrayQueue::new`: an empty queue for `capacity` tickets. It panics where
/// the capacity is zero, or so large that the slots cannot be counted or
/// their bytes not addressed.
#[verifier::external_body]
fn queue_new(capacity: usize) -> (q: ArrayQueue<u64>)
    requires
        0 < capacity <= usize::MAX / 128,
    ensures
        queued(q) == Seq::<u64>::empty(),
        room(q) == capacity,
{
    ArrayQueue::new(capacity)
}

/// `ArrayQueue::push`: the ticket goes behind the others where there is room
/// for it, and else comes back.
#[verifier::external_body]
fn queue_push(q: &mut ArrayQueue<u64>, ticket: u64) -> (r: Result<(), u64>)
    ensures
        room(*final(q)) == room(*old(q)),
        queued(*old(q)).len() < room(*old(q)) ==> r is Ok && queued(*final(q)) == queued(
            *old(q),
        ).push(ticket),
        queued(*old(q)).len() >= room(*old(q)) ==> r is Err && r->Err_0 == ticket && queued(
            *final(q),
        ) == queued(*old(q)),
{
    q.push(ticket)
}

/// `ArrayQueue::pop`: takes the oldest ticket, where there is one.
#[verifier::external_body]
fn queue_pop(q: &mut ArrayQueue<u64>) -> (r: Option<u64>)
    ensures
        room(*final(q)) == room(*old(q)),
        queued(*old(q)).len() == 0 ==> r is None && queued(*final(q)) == queued(*old(q)),
        queued(*old(q)).len() > 0 ==> r is Some && r->Some_0 == queued(*old(q))[0] && queued(
            *final(q),
        ) == queued(*old(q)).drop_first(),
{
    q.pop()
}

/// Items that wait to be polled, no more than the capacity. The queue itself
/// holds tickets, numbered on and on, and the items are kept by ticket.
pub struct BoundedQueue<T> {
    queue: ArrayQueue<u64>,
    items: HashMap<u64, T>,
    next: u64,
}

/// The ticket that stands `back` places before `next`; numbers start again
/// behind the largest.
spec fn ticket(next: u64, back: int) -> u64 {
    ((next - back) % 0x1_0000_0000_0000_0000) as u64
}

proof fn lemma_tickets_differ(next: u64, a: int, b: int)
    requires
        0 <= a < 0x1_0000_0000_0000_0000,
        0 <= b < 0x1_0000_0000_0000_0000,
        ticket(next, a) == ticket(next, b),
    ensures
        a == b,
{
}

proof fn lemma_ticket_moves(next: u64, back: int)
    ensures
        ticket(next.wrapping_add(1), back + 1) == ticket(next, back),
{
}

impl<T> View for BoundedQueue<T> {
    type V = Seq<T>;

    closed spec fn view(&self) -> Seq<T> {
        Seq::new(queued(self.queue).len(), |i: int| self.items@[queued(self.queue)[i]])
    }
}

/// The contents of a queue for `capacity` items after one more has come that
/// may push the oldest out.
pub open spec fn pushed<T>(contents: Seq<T>, capacity: nat, item: T) -> Seq<T> {
    if contents.len() < capacity {
        contents.push(item)
    } else {
        contents.drop_first().push(item)
    }
}

impl<T> BoundedQueue<T> {
    /// How many items fit.
    pub closed spec fn capacity(&self) -> nat {
        room(self.queue)
    }

    /// The tickets in the queue are the latest ones, and each has its item.
    pub closed spec fn wf(&self) -> bool {
        let ids = queued(self.queue);
        &&& 0 < room(self.queue) <= usize::MAX / 128
        &&& ids.len() <= room(self.queue)
        &&& forall|i: int|
            0 <= i < ids.len() ==> #[trigger] ids[i] == ticket(self.next, ids.len() - i)
        &&& forall|i: int| 0 <= i < ids.len() ==> self.items@.contains_key(#[trigger] ids[i])
    }

    /// A queue has a capacity, and holds no more than fits.
    pub proof fn law_never_above_capacity(&self)
        requires
            self.wf(),
        ensures
            0 < self.capacity(),
            self@.len() <= self.capacity(),
    {
    }

    /// An empty queue.
    pub fn new(capacity: usize) -> (q: BoundedQueue<T>)
        requires
            0 < capacity <= usize::MAX / 128,
        ensures
            q.wf(),
            q.capacity() == capacity,
            q@ == Seq::<T>::empty(),
    {
        let q = BoundedQueue { queue: queue_new(capacity), items: HashMap::new(), next: 0 };
        assert(q@ =~= Seq::<T>::empty());
        q
    }

    /// Queues an item, where there is room for it; else it comes back.
    pub fn push(&mut self, item: T) -> (r: Result<(), T>)
        requires
            old(self).wf(),
        ensures
            final(self).wf(),
            final(self).capacity() == old(self).capacity(),
            old(self)@.len() < old(self).capacity() ==> r is Ok && final(self)@ == old(self)@.push(
                item,
            ),
            old(self)@.len() >= old(self).capacity() ==> r == Err::<(), T>(item) && final(self)@
                == old(self)@,
    {
        let id: u64 = self.next;
        let ghost before = queued(self.queue);
        let ghost kept = self.items@;
        match queue_push(&mut self.queue, id) {
            Ok(()) => {
                let _ = self.items.insert(id, item);
                self.next = id.wrapping_add(1);
                proof {
                    let ids = queued(self.queue);
                    assert forall|i: int| 0 <= i < ids.len() implies #[trigger] ids[i] == ticket(
                        self.next,
                        ids.len() - i,
                    ) by {
                        lemma_ticket_moves(id, before.len() - i);
                        if i < before.len() {
                            assert(ids[i] == before[i]);
                        }
                    }
                    assert forall|i: int| 0 <= i < before.len() implies #[trigger] before[i]
                        != id by {
                        if before[i] == id {
                            assert(ticket(id, before.len() - i) == ticket(id, 0));
                            lemma_tickets_differ(id, before.len() - i, 0);
                        }
                    }
                    assert forall|i: int| 0 <= i < ids.len() implies self.items@.contains_key(
                        #[trigger] ids[i],
                    ) by {
                        if i < before.len() {
                            assert(ids[i] == before[i]);
                        }
                    }
                    assert(self@ =~= old(self)@.push(item)) by {
                        assert forall|i: int| 0 <= i < ids.len() implies self@[i] == old(
                            self,
                        )@.push(item)[i] by {
                            if i < before.len() {
                                assert(ids[i] == before[i]);
                            }
                        }
                    }
                }
                Ok(())
            },
            Err(_) => {
                assert(self@ =~= old(self)@);
                Err(item)
            },
        }
    }

    /// Takes the oldest item, where there is one.
    pub fn poll(&mut self) -> (r: Option<T>)
        requires
            old(self).wf(),
        ensures
            final(self).wf(),
            final(self).capacity() == old(self).capacity(),
            old(self)@.len() == 0 ==> r is None && final(self)@ == old(self)@,
            old(self)@.len() > 0 ==> r == Some(old(self)@[0]) && final(self)@
                == old(self)@.drop_first(),
    {
        let ghost before = queued(self.queue);
        match queue_pop(&mut self.queue) {
            Some(id) => {
                let item = self.items.remove(&id);
                proof {
                    let ids = queued(self.queue);
                    assert(old(self).items@.contains_key(before[0]));
                    assert forall|i: int| 0 <= i < ids.len() implies #[trigger] ids[i] == before[i
                        + 1] && ids[i] != id by {
                        assert(before[i + 1] == ticket(self.next, before.len() - (i + 1)));
                        assert(before[0] == ticket(self.next, before.len() - 0));
                        if ids[i] == id {
                            lemma_tickets_differ(
                                self.next,
                                before.len() - (i + 1),
                                before.len() as int,
                            );
                        }
                    }
                    assert forall|i: int| 0 <= i < ids.len() implies #[trigger] ids[i] == ticket(
                        self.next,
                        ids.len() - i,
                    ) && self.items@.contains_key(ids[i]) by {
                        assert(ids[i] == before[i + 1]);
                        assert(before[i + 1] == ticket(self.next, before.len() - (i + 1)));
                        assert(old(self).items@.contains_key(before[i + 1]));
                    }
                    assert(self@ =~= old(self)@.drop_first()) by {
                        assert forall|i: int| 0 <= i < ids.len() implies self@[i] == old(
                            self,
                        )@.drop_first()[i] by {
                            assert(ids[i] == before[i + 1]);
                        }
                    }
                }
                item
            },
            None => {
                assert(self@ =~= old(self)@);
                None
            },
        }
    }

    /// Queues an item; where the queue is full, the oldest one is dropped
    /// first, so that the new one is not lost.
    pub fn push_latest(&mut self, item: T)
        requires
            old(self).wf(),
        ensures
            final(self).wf(),
            final(self).capacity() == old(self).capacity(),
            final(self)@ == pushed(old(self)@, old(self).capacity(), item),
    {
        match self.push(item) {
            Ok(()) => {},
            Err(rejected) => {
                let _ = self.poll();
                let _ = self.push(rejected);
            },
        }
    }

    /// Takes all items, the oldest first.
    pub fn drain(&mut self) -> (r: Vec<T>)
        requires
            old(self).wf(),
        ensures
            final(self).wf(),
            final(self).capacity() == old(self).capacity(),
            final(self)@ == Seq::<T>::empty(),
            r@ == old(self)@,
    {
        let mut taken: Vec<T> = Vec::new();
        let ghost all = self@;
        assert(all.skip(0) =~= all);
        loop
            invariant
                self.wf(),
                self.capacity() == old(self).capacity(),
                all == old(self)@,
                taken@ + self@ == all,
            ensures
                self.wf(),
                self.capacity() == old(self).capacity(),
                self@ == Seq::<T>::empty(),
                taken@ == all,
            decreases self@.len(),
        {
            let ghost rest = self@;
            let ghost before = taken@;
            match self.poll() {
                Some(item) => {
                    taken.push(item);
                    assert(taken@ + self@ =~= before + rest);
                },
                None => {
                    assert(self@ =~= Seq::<T>::empty());
                    assert(taken@ =~= all);
                    break;
                },
            }
        }
        taken
    }
}

/// The contents of a queue after all of `items` have come.
pub open spec fn all_pushed<T>(contents: Seq<T>, capacity: nat, items: Seq<T>) -> Seq<T>
    decreases items.len(),
{
    if items.len() == 0 {
        contents
    } else {
        pushed(all_pushed(contents, capacity, items.drop_last()), capacity, items.last())
    }
}

/// A queue that is not polled holds the latest items, as many as fit, in the
/// order in which they came.
pub proof fn law_queue_holds_the_latest<T>(capacity: nat, items: Seq<T>)
    requires
        capacity > 0,
    ensures
        all_pushed(Seq::empty(), capacity, items) == items.skip(
            if items.len() > capacity {
                items.len() - capacity
            } else {
                0
            },
        ),
    decreases items.len(),
{
    if items.len() == 0 {
        assert(items.skip(0) =~= Seq::<T>::empty());
    } else {
        let init = items.drop_last();
        law_queue_holds_the_latest(capacity, init);
        let k = if items.len() > capacity {
            items.len() - capacity
        } else {
            0
        };
        assert(all_pushed(Seq::empty(), capacity, items) =~= items.skip(k));
    }
}

} // verus!
