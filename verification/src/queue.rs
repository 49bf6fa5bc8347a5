//! The outbound queue of an endpoint: the sending half of a `tokio` channel
//! whose receiving half is drained by the connection's writer.
//!
//! The broker keeps the only sender of each queue and never clones it, so the
//! events that a queue has accepted are exactly those that the broker pushed,
//! in the order of the pushes.

use vstd::prelude::*;
use tokio::sync::mpsc::{Receiver, Sender, UnboundedReceiver, UnboundedSender};
use crate::message::{ClientCommand, EventView};

verus! {

/// Sending half of an unbounded `tokio` channel.
#[verifier::external_type_specification]
#[verifier::external_body]
#[verifier::reject_recursive_types(T)]
pub struct ExUnboundedSender<T>(tokio::sync::mpsc::UnboundedSender<T>);

/// Receiving half of an unbounded `tokio` channel.
#[verifier::external_type_specification]
#[verifier::external_body]
#[verifier::reject_recursive_types(T)]
pub struct ExUnboundedReceiver<T>(tokio::sync::mpsc::UnboundedReceiver<T>);

/// Sending half of a bounded `tokio` channel.
#[verifier::external_type_specification]
#[verifier::external_body]
#[verifier::reject_recursive_types(T)]
pub struct ExSender<T>(tokio::sync::mpsc::Sender<T>);

/// Receiving half of a bounded `tokio` channel.
#[verifier::external_type_specification]
#[verifier::external_body]
#[verifier::reject_recursive_types(T)]
pub struct ExReceiver<T>(tokio::sync::mpsc::Receiver<T>);

/// The events that the channel behind `tx` has accepted since it was made,
/// oldest first. The receiver takes them out in this order.
pub uninterp spec fn unbounded_accepted(tx: UnboundedSender<ClientCommand>) -> Seq<EventView>;

/// The events that the channel behind `tx` has accepted since it was made,
/// oldest first. The receiver takes them out in this order.
pub uninterp spec fn bounded_accepted(tx: Sender<ClientCommand>) -> Seq<EventView>;

/// The number of events that the channel behind `tx` buffers at most: the
/// capacity it was made with.
pub uninterp spec fn bounded_capacity(tx: Sender<ClientCommand>) -> nat;

/// Largest capacity a bounded queue can be made with.
pub const MAX_QUEUE_CAPACITY: usize = usize::MAX / 8;

/// What became of an event handed to a queue.
#[derive(Debug, Clone, Copy, PartialEq, Eq, Structural)]
pub enum Enqueue {
    /// The queue took the event.
    Accepted,
    /// The queue is bounded and has no room; the event was dropped.
    Full,
    /// The receiving half is gone or closed; the event was dropped.
    Closed,
}

/// `tokio::sync::mpsc::unbounded_channel`: a fresh channel, which has
/// accepted nothing yet.
#[verifier::external_body]
pub(crate) fn open_unbounded() -> (r: (
    UnboundedSender<ClientCommand>,
    UnboundedReceiver<ClientCommand>,
))
    ensures
        unbounded_accepted(r.0) == Seq::<EventView>::empty(),
{
    tokio::sync::mpsc::unbounded_channel()
}

/// `tokio::sync::mpsc::channel`: a fresh channel of the given capacity, which
/// has accepted nothing yet. The call panics on a capacity of zero or above
/// `usize::MAX >> 3`, so those are left out.
#[verifier::external_body]
pub(crate) fn open_bounded(capacity: usize) -> (r: (
    Sender<ClientCommand>,
    Receiver<ClientCommand>,
))
    requires
        0 < capacity <= MAX_QUEUE_CAPACITY,
    ensures
        bounded_accepted(r.0) == Seq::<EventView>::empty(),
        bounded_capacity(r.0) == capacity,
{
    tokio::sync::mpsc::channel(capacity)
}

/// `UnboundedSender::send`: the channel takes the event unless its receiving
/// half is closed or dropped, in which case nothing changes. It never reports
/// a lack of room.
#[verifier::external_body]
pub(crate) fn push_unbounded(tx: &mut UnboundedSender<ClientCommand>, ev: ClientCommand) -> (r:
    Enqueue)
    ensures
        r is Accepted || r is Closed,
        r is Accepted ==> unbounded_accepted(*final(tx)) == unbounded_accepted(*old(tx)).push(ev@),
        r is Closed ==> unbounded_accepted(*final(tx)) == unbounded_accepted(*old(tx)),
{
    match tx.send(ev) {
        Ok(()) => Enqueue::Accepted,
        Err(_) => Enqueue::Closed,
    }
}

/// `Sender::try_send`: the channel takes the event unless it has no free
/// slot or its receiving half is closed or dropped; in both cases nothing
/// changes. The capacity stays what it was. A slot is taken by each event
/// that the channel accepts and freed when the receiver takes the event
/// out, so the channel has a free slot as long as it has accepted fewer
/// events than its capacity.
#[verifier::external_body]
pub(crate) fn push_bounded(tx: &mut Sender<ClientCommand>, ev: ClientCommand) -> (r: Enqueue)
    ensures
        bounded_capacity(*final(tx)) == bounded_capacity(*old(tx)),
        r is Full ==> bounded_accepted(*old(tx)).len() >= bounded_capacity(*old(tx)),
        r is Accepted ==> bounded_accepted(*final(tx)) == bounded_accepted(*old(tx)).push(ev@),
        !(r is Accepted) ==> bounded_accepted(*final(tx)) == bounded_accepted(*old(tx)),
{
    match tx.try_send(ev) {
        Ok(()) => Enqueue::Accepted,
        Err(tokio::sync::mpsc::error::TrySendError::Full(_)) => Enqueue::Full,
        Err(tokio::sync::mpsc::error::TrySendError::Closed(_)) => Enqueue::Closed,
    }
}

/// `Sender::max_capacity`: the capacity the channel was made with.
#[verifier::external_body]
pub(crate) fn capacity_of(tx: &Sender<ClientCommand>) -> (n: usize)
    ensures
        n == bounded_capacity(*tx),
{
    tx.max_capacity()
}

/// The sending half of an endpoint's outbound queue, of either flavour. It
/// is made together with its channel and stays with its endpoint: no second
/// sender to the same channel ever exists.
#[derive(Debug)]
pub(crate) enum Outbound {
    /// Never refuses an event for lack of room.
    Unbounded(UnboundedSender<ClientCommand>),
    /// Holds a fixed number of events at most.
    Bounded(Sender<ClientCommand>),
}

/// The receiving half of an endpoint's outbound queue, handed to the
/// connection's writer.
#[derive(Debug)]
pub enum OutboundReceiver {
    /// Receiver of an unbounded queue.
    Unbounded(UnboundedReceiver<ClientCommand>),
    /// Receiver of a bounded queue.
    Bounded(Receiver<ClientCommand>),
}

impl Outbound {
    /// The events that the queue has accepted so far, oldest first.
    pub(crate) open spec fn accepted(self) -> Seq<EventView> {
        match self {
            Outbound::Unbounded(tx) => unbounded_accepted(tx),
            Outbound::Bounded(tx) => bounded_accepted(tx),
        }
    }

    /// The capacity of a bounded queue, `None` for an unbounded one.
    pub(crate) open spec fn capacity(self) -> Option<nat> {
        match self {
            Outbound::Unbounded(_) => None,
            Outbound::Bounded(tx) => Some(bounded_capacity(tx)),
        }
    }

    /// Offers `ev` to the queue without waiting.
    pub(crate) fn push(&mut self, ev: ClientCommand) -> (r: Enqueue)
        ensures
            final(self).capacity() == old(self).capacity(),
            r is Full ==> old(self).capacity() is Some && old(self).accepted().len() >= old(
                self,
            ).capacity()->Some_0,
            r is Accepted ==> final(self).accepted() == old(self).accepted().push(ev@),
            !(r is Accepted) ==> final(self).accepted() == old(self).accepted(),
    {
        match self {
            Outbound::Unbounded(tx) => push_unbounded(tx, ev),
            Outbound::Bounded(tx) => push_bounded(tx, ev),
        }
    }

    /// The capacity of a bounded queue, `None` for an unbounded one.
    pub(crate) fn max_capacity(&self) -> (n: Option<usize>)
        ensures
            match n {
                Some(c) => self.capacity() == Some(c as nat),
                None => self.capacity() is None,
            },
    {
        match self {
            Outbound::Unbounded(_) => None,
            Outbound::Bounded(tx) => Some(capacity_of(tx)),
        }
    }
}

} // verus!
