//! The bounded channel between a producer and a consumer task: a FIFO queue
//! of fixed capacity with a send that never blocks.

use vstd::prelude::*;
use rtic_sync::channel::{Channel, Receiver, Sender};
use crate::time::TimeInstant;

verus! {

/// The largest capacity that a channel can be made with.
pub const MAX_CAPACITY: usize = 255;

/// A unit of work, handed from a producer to a consumer.
#[derive(Clone, Copy, Debug, PartialEq, Eq, Structural)]
pub struct WorkItem {
    /// How much work the consumer is asked to do.
    pub magnitude: u32,
    /// The instant at which the producer released the item.
    pub release: TimeInstant,
}

/// `rtic_sync::channel::Sender`: the producer's end of a channel.
#[verifier::external_type_specification]
#[verifier::external_body]
#[verifier::reject_recursive_types(T)]
pub struct ExSender<'a, T, const N: usize>(rtic_sync::channel::Sender<'a, T, N>);

/// `rtic_sync::channel::Receiver`: the consumer's end of a channel.
#[verifier::external_type_specification]
#[verifier::external_body]
#[verifier::reject_recursive_types(T)]
pub struct ExReceiver<'a, T, const N: usize>(rtic_sync::channel::Receiver<'a, T, N>);

/// What waits in the channel that `receiver` takes from, oldest first.
pub uninterp spec fn queued(receiver: Receiver<'static, (u32, u32), 255>) -> Seq<(u32, u32)>;

/// The two ends of one channel of 255 slots. They are made together by
/// `open_ends` and by nothing else, and never part: what goes in at `tx` is
/// what comes out at `rx`.
struct Ends {
    tx: Sender<'static, (u32, u32), 255>,
    rx: Receiver<'static, (u32, u32), 255>,
}

/// `rtic_sync::channel::Channel::new` and `split`: the two ends of a fresh
/// channel, in storage that is never given back, with nothing queued.
#[verifier::external_body]
fn open_ends() -> (ends: Ends)
    ensures
        queued(ends.rx) == Seq::<(u32, u32)>::empty(),
{
    let storage = Box::leak(Box::new(Channel::new()));
    let (tx, rx) = storage.split();
    Ends { tx, rx }
}

/// `rtic_sync::channel::Sender::try_send` on the producer's end: with a free
/// slot among the 255 the item is queued behind the others; with none it is
/// refused and the queue stays as it was. The consumer's end is alive and no
/// sender waits, so these are the only outcomes.
#[verifier::external_body]
fn send_on(ends: &mut Ends, item: (u32, u32)) -> (sent: bool)
    ensures
        sent == (queued(old(ends).rx).len() < 255),
        sent ==> queued(final(ends).rx) == queued(old(ends).rx).push(item),
        !sent ==> queued(final(ends).rx) == queued(old(ends).rx),
{
    ends.tx.try_send(item).is_ok()
}

/// `rtic_sync::channel::Receiver::try_recv` on the consumer's end: the
/// oldest item leaves the queue and is returned; from an empty queue nothing
/// is.
#[verifier::external_body]
fn receive_from(ends: &mut Ends) -> (item: Option<(u32, u32)>)
    ensures
        queued(old(ends).rx).len() == 0 ==> item is None && queued(final(ends).rx) == queued(
            old(ends).rx,
        ),
        queued(old(ends).rx).len() > 0 ==> item == Some(queued(old(ends).rx)[0]) && queued(
            final(ends).rx,
        ) == queued(old(ends).rx).drop_first(),
{
    ends.rx.try_recv().ok()
}

/// Why a send did not take place. Either way the item comes back.
#[derive(Clone, Copy, Debug, PartialEq, Eq, Structural)]
pub enum TrySendError {
    /// The queue already holds as many items as the channel's capacity.
    Full(WorkItem),
    /// The producer's end has been closed.
    Closed(WorkItem),
}

/// Why a receive returned no item.
#[derive(Clone, Copy, Debug, PartialEq, Eq, Structural)]
pub enum ReceiveError {
    /// Nothing is queued; the producer may still send.
    Empty,
    /// Nothing is queued and the producer's end has been closed for good.
    Closed,
}

/// The item that a queued pair stands for.
pub open spec fn item_of(pair: (u32, u32)) -> WorkItem {
    WorkItem { magnitude: pair.0, release: TimeInstant { ticks: pair.1 } }
}

/// The outcome of a send of `item` on a queue `queue` of capacity
/// `capacity`: the queue afterwards, and whether the item was taken.
pub open spec fn sent(queue: Seq<WorkItem>, capacity: int, item: WorkItem) -> (Seq<WorkItem>, bool) {
    if queue.len() < capacity {
        (queue.push(item), true)
    } else {
        (queue, false)
    }
}

/// The outcome of a receive on a queue `queue`: the queue afterwards, and
/// the item that left it, if any.
pub open spec fn received(queue: Seq<WorkItem>) -> (Seq<WorkItem>, Option<WorkItem>) {
    if queue.len() > 0 {
        (queue.drop_first(), Some(queue[0]))
    } else {
        (queue, None)
    }
}

/// A channel of fixed capacity from one producer to one consumer.
pub struct BoundedChannel {
    ends: Ends,
    capacity: usize,
    len: usize,
    open: bool,
}

impl View for BoundedChannel {
    type V = Seq<WorkItem>;

    closed spec fn view(&self) -> Seq<WorkItem> {
        queued(self.ends.rx).map_values(|pair: (u32, u32)| item_of(pair))
    }
}

impl BoundedChannel {
    /// The capacity that the channel was made with.
    pub closed spec fn spec_capacity(&self) -> int {
        self.capacity as int
    }

    /// Whether the producer's end is still open.
    pub closed spec fn is_open(&self) -> bool {
        self.open
    }

    /// The channel never holds more than its capacity, which is at least 1.
    pub closed spec fn wf(&self) -> bool {
        &&& 1 <= self.capacity <= MAX_CAPACITY
        &&& self.len == queued(self.ends.rx).len()
        &&& self.len <= self.capacity
    }

    /// The queue is within the capacity, and the capacity within its limits.
    pub proof fn lemma_bounds(&self)
        requires
            self.wf(),
        ensures
            1 <= self.spec_capacity() <= MAX_CAPACITY,
            self@.len() <= self.spec_capacity(),
    {
    }

    /// An empty, open channel of the given capacity; `None` unless the
    /// capacity is between 1 and `MAX_CAPACITY`. A channel is made for the
    /// life of the system: its storage is not given back.
    pub fn new(capacity: usize) -> (channel: Option<BoundedChannel>)
        ensures
            channel is Some <==> 1 <= capacity <= MAX_CAPACITY,
            channel is Some ==> {
                &&& channel->Some_0.wf()
                &&& channel->Some_0@ == Seq::<WorkItem>::empty()
                &&& channel->Some_0.spec_capacity() == capacity
                &&& channel->Some_0.is_open()
            },
    {
        if capacity < 1 || capacity > MAX_CAPACITY {
            return None;
        }
        let ends = open_ends();
        let channel = BoundedChannel { ends, capacity, len: 0, open: true };
        Some(channel)
    }

    /// The capacity that the channel was made with.
    pub fn capacity(&self) -> (capacity: usize)
        ensures
            capacity == self.spec_capacity(),
    {
        self.capacity
    }

    /// How many items wait in the queue.
    pub fn len(&self) -> (len: usize)
        requires
            self.wf(),
        ensures
            len == self@.len(),
    {
        self.len
    }

    /// Whether nothing is queued.
    pub fn is_empty(&self) -> (empty: bool)
        requires
            self.wf(),
        ensures
            empty == (self@.len() == 0),
    {
        self.len == 0
    }

    /// Whether the queue holds as many items as the capacity allows.
    pub fn is_full(&self) -> (full: bool)
        requires
            self.wf(),
        ensures
            full == (self@.len() == self.spec_capacity()),
    {
        self.len == self.capacity
    }

    /// Whether the producer's end has been closed.
    pub fn is_closed(&self) -> (closed: bool)
        ensures
            closed == !self.is_open(),
    {
        !self.open
    }

    /// Closes the producer's end for good. What is queued stays queued.
    pub fn close(&mut self)
        requires
            old(self).wf(),
        ensures
            final(self).wf(),
            !final(self).is_open(),
            final(self)@ == old(self)@,
            final(self).spec_capacity() == old(self).spec_capacity(),
    {
        self.open = false;
    }

    /// Queues `item` behind the others unless the queue is full or the
    /// producer's end closed. It never waits, never overwrites and never
    /// drops a queued item: a refused item comes back in the error and the
    /// queue stays as it was.
    pub fn try_send(&mut self, item: WorkItem) -> (outcome: Result<(), TrySendError>)
        requires
            old(self).wf(),
        ensures
            final(self).wf(),
            final(self).spec_capacity() == old(self).spec_capacity(),
            final(self).is_open() == old(self).is_open(),
            !old(self).is_open() ==> outcome == Err::<(), TrySendError>(TrySendError::Closed(item))
                && final(self)@ == old(self)@,
            old(self).is_open() ==> final(self)@ == sent(
                old(self)@,
                old(self).spec_capacity(),
                item,
            ).0,
            old(self).is_open() && sent(old(self)@, old(self).spec_capacity(), item).1 ==> outcome
                == Ok::<(), TrySendError>(()),
            old(self).is_open() && !sent(old(self)@, old(self).spec_capacity(), item).1 ==> outcome
                == Err::<(), TrySendError>(TrySendError::Full(item)),
    {
        if !self.open {
            return Err(TrySendError::Closed(item));
        }
        if self.len >= self.capacity {
            return Err(TrySendError::Full(item));
        }
        let pair: (u32, u32) = (item.magnitude, item.release.ticks);
        if !send_on(&mut self.ends, pair) {
            // Below the capacity a slot is free, so this is never taken; the
            // count moves only with the queue.
            return Err(TrySendError::Full(item));
        }
        self.len = self.len + 1;
        Ok(())
    }

    /// Takes the oldest item from the queue. Where nothing is queued the
    /// consumer would wait (`Empty`), unless the producer's end is closed
    /// (`Closed`).
    pub fn try_recv(&mut self) -> (outcome: Result<WorkItem, ReceiveError>)
        requires
            old(self).wf(),
        ensures
            final(self).wf(),
            final(self).spec_capacity() == old(self).spec_capacity(),
            final(self).is_open() == old(self).is_open(),
            final(self)@ == received(old(self)@).0,
            old(self)@.len() > 0 ==> outcome == Ok::<WorkItem, ReceiveError>(old(self)@[0]),
            old(self)@.len() == 0 && old(self).is_open() ==> outcome == Err::<
                WorkItem,
                ReceiveError,
            >(ReceiveError::Empty),
            old(self)@.len() == 0 && !old(self).is_open() ==> outcome == Err::<
                WorkItem,
                ReceiveError,
            >(ReceiveError::Closed),
    {
        match receive_from(&mut self.ends) {
            Some(pair) => {
                self.len = self.len - 1;
                Ok(WorkItem { magnitude: pair.0, release: TimeInstant { ticks: pair.1 } })
            },
            None => {
                if self.open {
                    Err(ReceiveError::Empty)
                } else {
                    Err(ReceiveError::Closed)
                }
            },
        }
    }
}

/// The queue after a send of each of `items` in turn, taken or refused.
pub open spec fn sent_all(queue: Seq<WorkItem>, capacity: int, items: Seq<WorkItem>) -> Seq<WorkItem>
    decreases items.len(),
{
    if items.len() == 0 {
        queue
    } else {
        sent(sent_all(queue, capacity, items.drop_last()), capacity, items.last()).0
    }
}

/// Whether each send of `items` in turn is taken.
pub open spec fn all_taken(queue: Seq<WorkItem>, capacity: int, items: Seq<WorkItem>) -> bool
    decreases items.len(),
{
    if items.len() == 0 {
        true
    } else {
        &&& all_taken(queue, capacity, items.drop_last())
        &&& sent(sent_all(queue, capacity, items.drop_last()), capacity, items.last()).1
    }
}

/// The queue after `count` receives.
pub open spec fn drained(queue: Seq<WorkItem>, count: nat) -> Seq<WorkItem>
    decreases count,
{
    if count == 0 {
        queue
    } else {
        received(drained(queue, (count - 1) as nat)).0
    }
}

/// What the receive after `count` earlier ones returns.
pub open spec fn nth_received(queue: Seq<WorkItem>, count: nat) -> Option<WorkItem> {
    received(drained(queue, count)).1
}

/// Sends that are all taken append the items to the queue in the order of
/// sending, and the queue stays within the capacity.
pub proof fn lemma_sends_append(queue: Seq<WorkItem>, capacity: int, items: Seq<WorkItem>)
    requires
        queue.len() <= capacity,
        all_taken(queue, capacity, items),
    ensures
        sent_all(queue, capacity, items) == queue + items,
        queue.len() + items.len() <= capacity,
    decreases items.len(),
{
    if items.len() == 0 {
    } else {
        lemma_sends_append(queue, capacity, items.drop_last());
    }
}

/// After as many sends as the capacity, all taken and with no receive
/// between them, the channel is full: the next send is refused and leaves
/// the queue as it was.
pub proof fn lemma_full_after_capacity_sends(
    queue: Seq<WorkItem>,
    capacity: int,
    items: Seq<WorkItem>,
    extra: WorkItem,
)
    requires
        queue.len() <= capacity,
        items.len() == capacity,
        all_taken(queue, capacity, items),
    ensures
        sent_all(queue, capacity, items) == items,
        sent(sent_all(queue, capacity, items), capacity, extra) == (items, false),
{
    lemma_sends_append(queue, capacity, items);
}

/// Each receive takes exactly one item, the oldest: `count` receives leave
/// the queue without its first `count` items, and the next one returns the
/// item that stood at place `count`, or nothing where the queue was shorter.
pub proof fn lemma_receives_in_order(queue: Seq<WorkItem>, count: nat)
    ensures
        count <= queue.len() ==> drained(queue, count) == queue.subrange(
            count as int,
            queue.len() as int,
        ),
        count < queue.len() ==> nth_received(queue, count) == Some(queue[count as int]),
        count >= queue.len() ==> drained(queue, count) == Seq::<WorkItem>::empty()
            && nth_received(queue, count) is None,
    decreases count,
{
    if count == 0 {
        if queue.len() == 0 {
        }
    } else {
        let before = (count - 1) as nat;
        lemma_receives_in_order(queue, before);
        if count <= queue.len() {
            let rest = queue.subrange(before as int, queue.len() as int);
            if count == queue.len() {
                assert(queue.subrange(count as int, queue.len() as int) =~= Seq::<
                    WorkItem,
                >::empty());
            }
        }
    }
}

/// The consumer sees the items in the order in which they were sent: after
/// sends that were all taken, the receives return the items already queued
/// and then the items sent, one per call and each in its place.
pub proof fn lemma_fifo(queue: Seq<WorkItem>, capacity: int, items: Seq<WorkItem>, count: nat)
    requires
        queue.len() <= capacity,
        all_taken(queue, capacity, items),
        count < queue.len() + items.len(),
    ensures
        nth_received(sent_all(queue, capacity, items), count) == Some((queue + items)[count as int]),
        queue.len() == 0 ==> nth_received(sent_all(queue, capacity, items), count) == Some(
            items[count as int],
        ),
{
    lemma_sends_append(queue, capacity, items);
    lemma_receives_in_order(queue + items, count);
}

} // verus!
