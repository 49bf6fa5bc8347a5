//! One connected client as the broker sees it: an id, a fixed set of
//! permissions and the sending half of an outbound queue.

use vstd::prelude::*;
use vstd::string::*;
use tokio::sync::mpsc::{Receiver, UnboundedReceiver};
use crate::directory::{Directory, DirectoryView, duplicate_channel_text};
use crate::error::{AppError, ErrorView};
use crate::message::{
    ChannelId, ChannelMessage, ClientCommand, CommandView, EventView, TerminalStreamCommand,
};
use crate::text::{decimal, decimal_digits};
use crate::queue::{Enqueue, Outbound, open_bounded, open_unbounded, MAX_QUEUE_CAPACITY};
use crate::settings::{Permission, PermissionSet};

verus! {

/// Unique identifier for an endpoint.
pub type EndpointId = u64;

/// What the broker's contracts say of an [`Endpoint`].
pub struct EndpointView {
    pub id: EndpointId,
    pub permissions: Set<Permission>,
    /// The events that the outbound queue has accepted, oldest first.
    pub delivered: Seq<EventView>,
    /// The capacity of a bounded outbound queue; `None` for an unbounded one.
    pub capacity: Option<nat>,
}

impl EndpointView {
    /// Whether the queue is bounded and has accepted at least as many events
    /// as it holds at most. Only then can it lack room for one more.
    pub open spec fn has_filled(self) -> bool {
        self.capacity is Some && self.delivered.len() >= self.capacity->Some_0
    }

    /// The endpoint after its queue accepted `ev`.
    pub open spec fn with_delivery(self, ev: EventView) -> EndpointView {
        EndpointView { delivered: self.delivered.push(ev), ..self }
    }
}

/// Whether every endpoint of `m` is filed under its own id.
pub open spec fn registry_wf(m: Map<EndpointId, Endpoint>) -> bool {
    forall|k: EndpointId| m.contains_key(k) ==> (#[trigger] m[k])@.id == k
}

/// The endpoints of `m`, each by its view.
pub open spec fn registry_view(m: Map<EndpointId, Endpoint>) -> Map<EndpointId, EndpointView> {
    Map::new(|k: EndpointId| m.contains_key(k), |k: EndpointId| m[k]@)
}

/// The endpoints `eps` after the queue of each endpoint in `ids` accepted
/// `ev`; the others are as they were.
pub open spec fn delivered_to(
    eps: Map<EndpointId, EndpointView>,
    ids: Set<EndpointId>,
    ev: EventView,
) -> Map<EndpointId, EndpointView> {
    Map::new(
        |k: EndpointId| eps.contains_key(k),
        |k: EndpointId|
            if ids.contains(k) {
                eps[k].with_delivery(ev)
            } else {
                eps[k]
            },
    )
}

/// The broker-side representation of one connected client.
#[derive(Debug)]
pub struct Endpoint {
    id: EndpointId,
    tx: Outbound,
    allowed_commands: PermissionSet,
}

impl View for Endpoint {
    type V = EndpointView;

    closed spec fn view(&self) -> EndpointView {
        EndpointView {
            id: self.id,
            permissions: self.allowed_commands@,
            delivered: self.tx.accepted(),
            capacity: self.tx.capacity(),
        }
    }
}

/// The detail of the error for an event that a queue refused because its
/// receiving half is gone.
pub open spec fn closed_text() -> Seq<char> {
    "channel closed"@
}

/// The detail of the error for an event that a bounded queue refused for lack
/// of room.
pub open spec fn full_text() -> Seq<char> {
    "no available capacity"@
}

/// A result with its error read as an [`ErrorView`].
pub open spec fn result_view(r: Result<(), AppError>) -> Result<(), ErrorView> {
    match r {
        Ok(()) => Ok(()),
        Err(e) => Err(e@),
    }
}

/// The error for a command that the endpoint has no permission for.
pub open spec fn denied(cmd: CommandView) -> ErrorView {
    ErrorView::PermissionDenied(cmd.required_permission().tag_text())
}

/// What a permitted command of the endpoint `id` does to the directory, and
/// its result. For a publish, `survivors` are the subscribers whose queue took
/// the event.
pub open spec fn executed(
    before: DirectoryView,
    id: EndpointId,
    cmd: CommandView,
    survivors: Set<EndpointId>,
) -> (DirectoryView, Result<(), ErrorView>) {
    match cmd {
        CommandView::CreateChannel(c) => if before.channels.contains_key(c) {
            (before, Err(ErrorView::Generic(duplicate_channel_text(c))))
        } else {
            (before.with_channel(c), Ok(()))
        },
        CommandView::Subscribe(c) => if before.channels.contains_key(c) {
            (before.with_subscriber(c, id), Ok(()))
        } else {
            (before, Err(ErrorView::ChannelNotFound(c)))
        },
        CommandView::NotifyChannel(c, m) => if before.channels.contains_key(c) {
            (before.after_fan_out(c, EventView::ChannelMessage(c, m), survivors), Ok(()))
        } else {
            (before, Err(ErrorView::ChannelNotFound(c)))
        },
    }
}

/// The one reply that a command gets: an acknowledgement, or the error's
/// text.
pub open spec fn reply_for(cmd: CommandView, result: Result<(), ErrorView>) -> EventView {
    match result {
        Ok(()) => EventView::Success(cmd.ack_text()),
        Err(e) => EventView::Error(e.text()),
    }
}

/// Whether `after` is `mid` with the reply `ev` at the end of the queue of
/// the endpoint `id`, or, where that queue refused the reply, `mid` itself.
pub open spec fn replied(
    mid: DirectoryView,
    after: DirectoryView,
    id: EndpointId,
    ev: EventView,
) -> bool {
    after == mid.with_delivery(id, ev) || after == mid
}

/// Whether `after` and `result` are a possible outcome of the command `cmd`
/// of the endpoint `id` on the directory `before`.
///
/// An endpoint that is not registered gets an error and nothing changes.
/// Without the permission the command is refused; otherwise it takes effect
/// as [`executed`] says. Either way the endpoint is sent one reply.
pub open spec fn handled(
    before: DirectoryView,
    after: DirectoryView,
    id: EndpointId,
    cmd: CommandView,
    result: Result<(), ErrorView>,
) -> bool {
    if !before.endpoints.contains_key(id) {
        &&& after == before
        &&& result == Err::<(), ErrorView>(
            ErrorView::EndpointNotFound(decimal_digits(id as nat)),
        )
    } else if !before.endpoints[id].permissions.contains(cmd.required_permission()) {
        &&& result == Err::<(), ErrorView>(denied(cmd))
        &&& replied(before, after, id, reply_for(cmd, result))
    } else {
        let survivors = after.channels[cmd.channel()];
        let outcome = executed(before, id, cmd, survivors);
        &&& cmd is NotifyChannel && before.channels.contains_key(cmd.channel())
            ==> before.can_survive(cmd.channel(), survivors)
        &&& result == outcome.1
        &&& replied(outcome.0, after, id, reply_for(cmd, result))
    }
}

impl Endpoint {
    /// An endpoint with an unbounded outbound queue, and the receiving half
    /// of that queue.
    pub fn new(id: EndpointId, allowed_commands: PermissionSet) -> (r: (
        Endpoint,
        UnboundedReceiver<ClientCommand>,
    ))
        ensures
            r.0@ == (EndpointView {
                id,
                permissions: allowed_commands@,
                delivered: Seq::empty(),
                capacity: None,
            }),
    {
        let (tx, rx) = open_unbounded();
        (Endpoint { id, tx: Outbound::Unbounded(tx), allowed_commands }, rx)
    }

    /// Create an endpoint with a bounded channel for backpressure control
    pub fn new_bounded(id: EndpointId, allowed_commands: PermissionSet, buffer_size: usize) -> (r:
        (Endpoint, Receiver<ClientCommand>))
        requires
            0 < buffer_size <= MAX_QUEUE_CAPACITY,
        ensures
            r.0@ == (EndpointView {
                id,
                permissions: allowed_commands@,
                delivered: Seq::empty(),
                capacity: Some(buffer_size as nat),
            }),
    {
        let (tx, rx) = open_bounded(buffer_size);
        (Endpoint { id, tx: Outbound::Bounded(tx), allowed_commands }, rx)
    }

    pub fn id(&self) -> (id: EndpointId)
        ensures
            id == self@.id,
    {
        self.id
    }

    /// Whether the endpoint holds permission `p`.
    pub fn allows(&self, p: Permission) -> (b: bool)
        ensures
            b == self@.permissions.contains(p),
    {
        self.allowed_commands.contains(p)
    }

    /// The endpoint's permissions.
    pub fn permissions(&self) -> (s: PermissionSet)
        ensures
            s@ == self@.permissions,
    {
        self.allowed_commands
    }

    /// The capacity of the outbound queue if it is bounded.
    pub fn queue_capacity(&self) -> (n: Option<usize>)
        ensures
            match n {
                Some(c) => self@.capacity == Some(c as nat),
                None => self@.capacity is None,
            },
    {
        self.tx.max_capacity()
    }

    /// Offers `msg` to the outbound queue without waiting. The queue takes it
    /// unless its receiving half is gone, or it is bounded and has no room;
    /// then the endpoint is left as it was and the error says which. A
    /// bounded queue has room at least until it has accepted as many events
    /// as it holds.
    pub fn send(&mut self, msg: ClientCommand) -> (r: Result<(), AppError>)
        ensures
            match r {
                Ok(()) => final(self)@ == old(self)@.with_delivery(msg@),
                Err(e) => {
                    &&& final(self)@ == old(self)@
                    &&& (e@ == ErrorView::ChannelSend(closed_text()) || (old(self)@.has_filled()
                        && e@ == ErrorView::ChannelSend(full_text())))
                },
            },
    {
        match self.tx.push(msg) {
            Enqueue::Accepted => Ok(()),
            Enqueue::Full => Err(AppError::ChannelSend(String::from_str("no available capacity"))),
            Enqueue::Closed => Err(AppError::ChannelSend(String::from_str("channel closed"))),
        }
    }

    /// Carries out one command of the endpoint `endpoint_id`, which must hold
    /// the permission for it, and sends the endpoint one reply: `Success` if
    /// the command succeeded, `Error` with the error's text if not. The
    /// result is the command's own, whatever became of the reply.
    pub fn on_command(
        directory: &mut Directory,
        endpoint_id: EndpointId,
        cmd: TerminalStreamCommand,
    ) -> (r: Result<(), AppError>)
        requires
            old(directory).wf(),
        ensures
            final(directory).wf(),
            handled(old(directory)@, final(directory)@, endpoint_id, cmd@, result_view(r)),
    {
        let required = cmd.required_permission();
        let allowed = match directory.find_endpoint(&endpoint_id) {
            Some(endpoint) => endpoint.allows(required),
            None => {
                return Err(AppError::EndpointNotFound(decimal(endpoint_id)));
            },
        };
        let result = if !allowed {
            Err(AppError::PermissionDenied(String::from_str(required.tag())))
        } else {
            match &cmd {
                TerminalStreamCommand::CreateChannel(channel_id) => directory.create_channel(
                    channel_id.clone(),
                ),
                TerminalStreamCommand::Subscribe(channel_id) => Self::subscribe(
                    directory,
                    endpoint_id,
                    channel_id,
                ),
                TerminalStreamCommand::NotifyChannel(channel_id, msg) => Self::notify_channel(
                    directory,
                    channel_id,
                    msg,
                ),
            }
        };
        // Send response back to client
        let reply = match &result {
            Ok(_) => cmd.acknowledgement(),
            Err(err) => ClientCommand::Error(err.message()),
        };
        let _ = directory.send_to(endpoint_id, reply);
        result
    }

    fn notify_channel(directory: &mut Directory, channel_id: &ChannelId, msg: &ChannelMessage) -> (r:
        Result<(), AppError>)
        requires
            old(directory).wf(),
        ensures
            final(directory).wf(),
            match r {
                Ok(()) => {
                    &&& old(directory)@.can_survive(
                        channel_id@,
                        final(directory)@.channels[channel_id@],
                    )
                    &&& final(directory)@ == old(directory)@.after_fan_out(
                        channel_id@,
                        EventView::ChannelMessage(channel_id@, msg@),
                        final(directory)@.channels[channel_id@],
                    )
                },
                Err(e) => {
                    &&& !old(directory)@.channels.contains_key(channel_id@)
                    &&& final(directory)@ == old(directory)@
                    &&& e@ == ErrorView::ChannelNotFound(channel_id@)
                },
            },
    {
        directory.publish(channel_id, msg.clone())
    }

    fn subscribe(directory: &mut Directory, endpoint_id: EndpointId, channel_id: &ChannelId) -> (r:
        Result<(), AppError>)
        requires
            old(directory).wf(),
            old(directory)@.endpoints.contains_key(endpoint_id),
        ensures
            final(directory).wf(),
            match r {
                Ok(()) => {
                    &&& old(directory)@.channels.contains_key(channel_id@)
                    &&& final(directory)@ == old(directory)@.with_subscriber(
                        channel_id@,
                        endpoint_id,
                    )
                },
                Err(e) => {
                    &&& !old(directory)@.channels.contains_key(channel_id@)
                    &&& final(directory)@ == old(directory)@
                    &&& e@ == ErrorView::ChannelNotFound(channel_id@)
                },
            },
    {
        if directory.find_endpoint(&endpoint_id).is_none() {
            return Err(AppError::EndpointNotFound(decimal(endpoint_id)));
        }
        directory.subscribe_to_channel(channel_id, endpoint_id)
    }

    /// Removes the endpoint `endpoint_id` from the directory.
    pub fn unregister(directory: &mut Directory, endpoint_id: EndpointId) -> (r: Result<
        (),
        AppError,
    >)
        requires
            old(directory).wf(),
        ensures
            final(directory).wf(),
            r is Ok,
            final(directory)@ == old(directory)@.without_endpoint(endpoint_id),
    {
        directory.unregister_endpoint(&endpoint_id)
    }
}

} // verus!
