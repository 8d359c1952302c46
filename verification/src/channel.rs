//! Bounded channels and named-group fan-out.
//!
//! A channel is a bounded queue with one sending and one receiving endpoint.
//! `try_send` never blocks: a rejected message comes back to the caller, so
//! no data is silently dropped.  `recv` never blocks either: an empty queue
//! is reported as a receive error.  A `GroupSender` owns an ordered
//! collection of senders plus a named partition into groups (groups may
//! overlap) and delivers a clone of a message to every member of a group.
//! Delivery failures return ownership of the undelivered message on every
//! error path.

use vstd::prelude::*;
use std::sync::Arc;
use crossbeam_queue::ArrayQueue;

verus! {

#[verifier::external_type_specification]
#[verifier::external_body]
#[verifier::reject_recursive_types(T)]
pub struct ExArrayQueue<T>(ArrayQueue<T>);

/// Relies on `crossbeam_queue::ArrayQueue::new`: allocates a bounded queue
/// of the given capacity; the capacity must not be zero, and must leave its
/// successor's next power of two representable.
#[verifier::external_body]
fn make_queue<M>(cap: usize) -> Arc<ArrayQueue<M>>
    requires
        1 <= cap <= usize::MAX / 2,
{
    Arc::new(ArrayQueue::new(cap))
}

/// Relies on `Arc::clone`: yields a second handle to the same queue.
#[verifier::external_body]
fn share_queue<M>(q: &Arc<ArrayQueue<M>>) -> (r: Arc<ArrayQueue<M>>)
    ensures
        r == *q,
{
    Arc::clone(q)
}

/// Relies on `crossbeam_queue::ArrayQueue::push`: enqueues the message, or
/// hands it back unchanged when the queue is full.
#[verifier::external_body]
fn queue_push<M>(q: &Arc<ArrayQueue<M>>, m: M) -> (r: Result<(), M>)
    ensures
        r is Ok || (r matches Err(v) && v == m),
{
    q.push(m)
}

/// Relies on `crossbeam_queue::ArrayQueue::pop`: dequeues the oldest
/// message, or yields nothing when the queue is empty.
#[verifier::external_body]
fn queue_pop<M>(q: &Arc<ArrayQueue<M>>) -> Option<M> {
    q.pop()
}

/// An error of the channel layer.  Every variant that can carry the
/// undelivered message does so: no error path loses data.
pub enum ChannelError<M> {
    /// The queue was empty (its producer may be gone).
    RecvError,
    /// The queue was full; the rejected message comes back unchanged.
    TrySendError(M),
    /// No sender exists at the requested index; the message comes back.
    SenderOverFlow(M),
    /// No group exists at the requested index; the message comes back.
    SenderGroupNotFound(M),
}

impl<M> ChannelError<M> {
    /// A short description of the error, as a log line would carry it.
    pub fn describe(&self) -> (r: &'static str)
        ensures
            self is RecvError ==> r@ == "Failed to receive message from channel"@,
            self is TrySendError ==> r@ == "Failed to send message through channel"@,
            self is SenderOverFlow ==> r@ == "Overflow on group sender's sender index"@,
            self is SenderGroupNotFound ==> r@ == "Overflow on group sender's group index(group not found)"@,
    {
        match self {
            ChannelError::RecvError => "Failed to receive message from channel",
            ChannelError::TrySendError(_) => "Failed to send message through channel",
            ChannelError::SenderOverFlow(_) => "Overflow on group sender's sender index",
            ChannelError::SenderGroupNotFound(_) => "Overflow on group sender's group index(group not found)",
        }
    }
}

/// The sending endpoint of one bounded queue.  Move-only: exactly one
/// logical producer owns it.
#[verifier::reject_recursive_types(M)]
pub struct Sender<M> {
    queue: Arc<ArrayQueue<M>>,
}

impl<M> Sender<M> {
    /// The underlying queue this endpoint pushes into.
    pub closed spec fn queue_handle(&self) -> Arc<ArrayQueue<M>> {
        self.queue
    }
}

/// The receiving endpoint of one bounded queue, exclusively owned by one
/// consuming task.
#[verifier::reject_recursive_types(M)]
pub struct Receiver<M> {
    queue: Arc<ArrayQueue<M>>,
}

impl<M> Receiver<M> {
    /// The underlying queue this endpoint pops from.
    pub closed spec fn queue_handle(&self) -> Arc<ArrayQueue<M>> {
        self.queue
    }
}

/// Build a bounded channel of the given capacity; the capacity is fixed for
/// the channel's whole life and must not be zero (and must be far below the
/// address space, so the queue's index arithmetic cannot overflow).  The two
/// endpoints are connected: they share one underlying queue.
pub fn channel<M>(cap: usize) -> (r: (Sender<M>, Receiver<M>))
    requires
        1 <= cap <= usize::MAX / 2,
    ensures
        r.0.queue_handle() == r.1.queue_handle(),
{
    let q = make_queue(cap);
    let q2 = share_queue(&q);
    (Sender { queue: q2 }, Receiver { queue: q })
}

impl<M> Sender<M> {
    /// Non-blocking send: on overflow the rejected message comes back to the
    /// caller unchanged rather than being dropped.
    pub fn try_send(&self, m: M) -> (r: Result<(), ChannelError<M>>)
        ensures
            r == Ok::<(), ChannelError<M>>(()) || r == Err::<(), ChannelError<M>>(
                ChannelError::TrySendError(m),
            ),
    {
        match queue_push(&self.queue, m) {
            Ok(()) => Ok(()),
            Err(rejected) => Err(ChannelError::TrySendError(rejected)),
        }
    }
}

impl<M> Receiver<M> {
    /// Non-blocking receive: the oldest message, or a receive error when the
    /// queue is empty (in particular when the producer is gone).
    pub fn recv(&self) -> (r: Result<M, ChannelError<M>>)
        ensures
            r is Err ==> r == Err::<M, ChannelError<M>>(ChannelError::RecvError),
    {
        match queue_pop(&self.queue) {
            Some(m) => Ok(m),
            None => Err(ChannelError::RecvError),
        }
    }
}

/// An ordered collection of senders plus a named partition: each group is an
/// ordered list of sender indices, and groups may overlap.
#[verifier::reject_recursive_types(M)]
pub struct GroupSender<M> {
    sender: Vec<Sender<M>>,
    group: Vec<Vec<usize>>,
}

impl<M> GroupSender<M> {
    /// The member senders, in registration order.
    pub closed spec fn senders(&self) -> Seq<Sender<M>> {
        self.sender@
    }

    /// The groups, each an ordered list of sender indices.
    pub closed spec fn groups(&self) -> Seq<Seq<usize>> {
        self.group@.map_values(|g: Vec<usize>| g@)
    }

    /// Every group index references a valid sender slot; established when
    /// the group sender is built and kept for its whole life.
    pub open spec fn wf(&self) -> bool {
        forall|g: int, k: int|
            0 <= g < self.groups().len() && 0 <= k < self.groups()[g].len()
                ==> #[trigger] self.groups()[g][k] < self.senders().len()
    }

    /// How many member senders this group sender owns.
    pub fn sender_count(&self) -> (n: usize)
        ensures
            n == self.senders().len(),
    {
        self.sender.len()
    }

    /// How many named groups the partition holds.
    pub fn group_count(&self) -> (n: usize)
        ensures
            n == self.groups().len(),
    {
        self.group.len()
    }

    /// Build a group sender from its member senders and its group table;
    /// group indices must reference valid sender slots at construction time.
    pub fn new(sender: Vec<Sender<M>>, group: Vec<Vec<usize>>) -> (r: Self)
        requires
            forall|g: int, k: int|
                0 <= g < group@.len() && 0 <= k < group@[g]@.len()
                    ==> #[trigger] group@[g]@[k] < sender@.len(),
        ensures
            r.senders() == sender@,
            r.groups() == group@.map_values(|g: Vec<usize>| g@),
            r.wf(),
    {
        let r = Self { sender, group };
        proof {
            assert forall|g: int, k: int|
                0 <= g < r.groups().len() && 0 <= k < r.groups()[g].len() implies #[trigger] r
                .groups()[g][k] < r.senders().len() by {
                assert(r.groups()[g] == r.group@[g]@);
            }
        }
        r
    }

    /// Deliver one converted clone of the message to every sender, in
    /// registration order.  The first rejection stops delivery and returns
    /// the original message; senders earlier in the order have then already
    /// received their copy.
    pub fn send_all<MM: Into<M> + Clone>(&self, mm: MM) -> (r: Result<(), ChannelError<MM>>)
        ensures
            r == Ok::<(), ChannelError<MM>>(()) || r == Err::<(), ChannelError<MM>>(
                ChannelError::TrySendError(mm),
            ),
    {
        let n = self.sender.len();
        for i in 0..n
            invariant
                n == self.senders().len(),
        {
            let m: M = mm.clone().into();
            match self.sender[i].try_send(m) {
                Ok(()) => {},
                Err(_) => {
                    return Err(ChannelError::TrySendError(mm));
                },
            }
        }
        Ok(())
    }

    /// Deliver to exactly one sender by position.  The index is assigned at
    /// construction time and the caller vouches for it; an overflow of that
    /// sender's queue returns the message.
    pub fn send_to(&self, m: M, sender_index: usize) -> (r: Result<(), ChannelError<M>>)
        requires
            sender_index < self.senders().len(),
        ensures
            r == Ok::<(), ChannelError<M>>(()) || r == Err::<(), ChannelError<M>>(
                ChannelError::TrySendError(m),
            ),
    {
        self.sender[sender_index].try_send(m)
    }

    /// Deliver to one sender by position, reporting an out-of-range index as
    /// an overflow error that returns the message unchanged.
    pub fn try_send_to(&self, m: M, sender_index: usize) -> (r: Result<(), ChannelError<M>>)
        ensures
            sender_index >= self.senders().len() ==> r == Err::<(), ChannelError<M>>(
                ChannelError::SenderOverFlow(m),
            ),
            sender_index < self.senders().len() ==> r == Ok::<(), ChannelError<M>>(())
                || r == Err::<(), ChannelError<M>>(ChannelError::TrySendError(m)),
    {
        if sender_index < self.sender.len() {
            self.sender[sender_index].try_send(m)
        } else {
            Err(ChannelError::SenderOverFlow(m))
        }
    }

    /// Deliver one converted clone of the message to every member of the
    /// named group, in stored order.  An unknown group index returns the
    /// original message in a group-not-found error, so it is never lost; a
    /// member rejection stops delivery and returns the original message.
    pub fn try_send_group<MM: Into<M> + Clone>(&self, mm: MM, group_index: usize) -> (r: Result<
        (),
        ChannelError<MM>,
    >)
        requires
            self.wf(),
        ensures
            group_index >= self.groups().len() ==> r == Err::<(), ChannelError<MM>>(
                ChannelError::SenderGroupNotFound(mm),
            ),
            group_index < self.groups().len() ==> r == Ok::<(), ChannelError<MM>>(())
                || r == Err::<(), ChannelError<MM>>(ChannelError::TrySendError(mm)),
    {
        if group_index >= self.group.len() {
            return Err(ChannelError::SenderGroupNotFound(mm));
        }
        let g = &self.group[group_index];
        let n = g.len();
        for k in 0..n
            invariant
                self.wf(),
                group_index < self.groups().len(),
                g@ == self.groups()[group_index as int],
                n == g@.len(),
        {
            let idx = g[k];
            assert(idx < self.senders().len());
            let m: M = mm.clone().into();
            match self.sender[idx].try_send(m) {
                Ok(()) => {},
                Err(_) => {
                    return Err(ChannelError::TrySendError(mm));
                },
            }
        }
        Ok(())
    }
}

} // verus!
