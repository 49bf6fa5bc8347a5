//! Laws of the broker: what holds of every command, every fan-out and every
//! run of a listener's connection counter.

use vstd::prelude::*;
use crate::directory::{DirectoryView, duplicate_channel_text};
use crate::endpoint::{EndpointId, denied, executed, handled, replied, reply_for};
use crate::error::ErrorView;
use crate::hub::successor;
use crate::message::{CommandView, EventView, MessageView};
use crate::websocket::{after_arrival, after_exit};

verus! {

/// Unregistering an endpoint removes it, and unregistering it once more
/// changes nothing.
pub proof fn unregistering_twice_is_once(d: DirectoryView, id: EndpointId)
    ensures
        !d.without_endpoint(id).endpoints.contains_key(id),
        d.without_endpoint(id).without_endpoint(id) == d.without_endpoint(id),
{
    assert(d.endpoints.remove(id).remove(id) =~= d.endpoints.remove(id));
}

/// No command registers or unregisters an endpoint: the registered
/// endpoints, their ids, permissions and queue capacities are the same
/// before and after every command.
pub proof fn commands_keep_registrations(
    before: DirectoryView,
    after: DirectoryView,
    id: EndpointId,
    cmd: CommandView,
    result: Result<(), ErrorView>,
)
    requires
        handled(before, after, id, cmd, result),
    ensures
        after.endpoints.dom() == before.endpoints.dom(),
        forall|k: EndpointId| #[trigger]
            before.endpoints.contains_key(k) ==> {
                &&& after.endpoints[k].id == before.endpoints[k].id
                &&& after.endpoints[k].permissions == before.endpoints[k].permissions
                &&& after.endpoints[k].capacity == before.endpoints[k].capacity
            },
{
    if before.endpoints.contains_key(id) && before.endpoints[id].permissions.contains(
        cmd.required_permission(),
    ) {
        let survivors = after.channels[cmd.channel()];
        let mid = executed(before, id, cmd, survivors).0;
        assert(mid.endpoints.dom() =~= before.endpoints.dom());
        assert(after.endpoints.dom() =~= mid.endpoints.dom());
    } else {
        assert(after.endpoints.dom() =~= before.endpoints.dom());
    }
}

/// An endpoint's queue only ever grows at its end: whatever a command does,
/// the events that each queue had accepted before are still there, in the
/// same order, ahead of what the command added.
pub proof fn queues_only_grow(
    before: DirectoryView,
    after: DirectoryView,
    id: EndpointId,
    cmd: CommandView,
    result: Result<(), ErrorView>,
)
    requires
        handled(before, after, id, cmd, result),
    ensures
        forall|k: EndpointId| #[trigger]
            before.endpoints.contains_key(k) ==> before.endpoints[k].delivered.is_prefix_of(
                after.endpoints[k].delivered,
            ),
{
    assert forall|k: EndpointId| #[trigger]
        before.endpoints.contains_key(k) implies before.endpoints[k].delivered.is_prefix_of(
        after.endpoints[k].delivered,
    ) by {
        let log = before.endpoints[k].delivered;
        assert(log.is_prefix_of(log));
        assert forall|a: EventView| log.is_prefix_of(#[trigger] log.push(a)) by {}
        assert forall|a: EventView, b: EventView|
            log.is_prefix_of(#[trigger] log.push(a).push(b)) by {}
        if before.endpoints.contains_key(id) && before.endpoints[id].permissions.contains(
            cmd.required_permission(),
        ) {
            let survivors = after.channels[cmd.channel()];
            let mid = executed(before, id, cmd, survivors).0;
            assert(mid.endpoints.contains_key(k));
            assert(mid.endpoints[k].delivered == log || exists|a: EventView|
                mid.endpoints[k].delivered == log.push(a));
        }
    }
}

/// Two publishes on one channel, one after the other: a subscriber that is
/// still subscribed after the second has both events at the end of its
/// queue, the first before the second. One that is gone after the first got
/// neither; one that is gone after the second got the first alone.
pub proof fn fan_out_keeps_order(
    d: DirectoryView,
    c: Seq<char>,
    first: EventView,
    kept_first: Set<EndpointId>,
    second: EventView,
    kept_second: Set<EndpointId>,
    id: EndpointId,
)
    requires
        d.can_survive(c, kept_first),
        d.after_fan_out(c, first, kept_first).can_survive(c, kept_second),
        d.channels[c].contains(id),
        d.endpoints.contains_key(id),
    ensures
        ({
            let before = d.endpoints[id].delivered;
            let after = d.after_fan_out(c, first, kept_first).after_fan_out(
                c,
                second,
                kept_second,
            ).endpoints[id].delivered;
            if kept_second.contains(id) {
                after == before.push(first).push(second)
            } else if kept_first.contains(id) {
                after == before.push(first)
            } else {
                after == before
            }
        }),
{
}

/// Creating a channel under an id that is taken fails, leaves every channel
/// and every subscription as it was, and sends the endpoint one `Error`
/// event that names the channel.
pub proof fn duplicate_channel_is_refused(
    before: DirectoryView,
    after: DirectoryView,
    id: EndpointId,
    c: Seq<char>,
    result: Result<(), ErrorView>,
)
    requires
        handled(before, after, id, CommandView::CreateChannel(c), result),
        before.endpoints.contains_key(id),
        before.endpoints[id].permissions.contains(
            CommandView::CreateChannel(c).required_permission(),
        ),
        before.channels.contains_key(c),
    ensures
        result == Err::<(), ErrorView>(ErrorView::Generic(duplicate_channel_text(c))),
        after.channels == before.channels,
        replied(before, after, id, EventView::Error(duplicate_channel_text(c))),
{
}

/// Subscribing to a channel that does not exist fails with
/// `ChannelNotFound`, leaves every channel and every subscription as it
/// was, and sends the endpoint one `Error` event that names the channel.
pub proof fn unknown_channel_is_refused(
    before: DirectoryView,
    after: DirectoryView,
    id: EndpointId,
    c: Seq<char>,
    result: Result<(), ErrorView>,
)
    requires
        handled(before, after, id, CommandView::Subscribe(c), result),
        before.endpoints.contains_key(id),
        before.endpoints[id].permissions.contains(
            CommandView::Subscribe(c).required_permission(),
        ),
        !before.channels.contains_key(c),
    ensures
        result == Err::<(), ErrorView>(ErrorView::ChannelNotFound(c)),
        after.channels == before.channels,
        replied(before, after, id, EventView::Error("Channel not found: "@ + c)),
{
}

/// Publishing to a channel that does not exist fails in the same way.
pub proof fn unknown_channel_takes_no_message(
    before: DirectoryView,
    after: DirectoryView,
    id: EndpointId,
    c: Seq<char>,
    m: MessageView,
    result: Result<(), ErrorView>,
)
    requires
        handled(before, after, id, CommandView::NotifyChannel(c, m), result),
        before.endpoints.contains_key(id),
        before.endpoints[id].permissions.contains(
            CommandView::NotifyChannel(c, m).required_permission(),
        ),
        !before.channels.contains_key(c),
    ensures
        result == Err::<(), ErrorView>(ErrorView::ChannelNotFound(c)),
        after.channels == before.channels,
        replied(before, after, id, EventView::Error("Channel not found: "@ + c)),
{
}

/// A command for which the endpoint lacks the permission is refused with
/// `PermissionDenied`. No channel is made, no subscription changes and no
/// other endpoint is sent anything: all that happens is one `Error` event,
/// naming the permission, at the end of the endpoint's own queue.
pub proof fn missing_permission_changes_nothing(
    before: DirectoryView,
    after: DirectoryView,
    id: EndpointId,
    cmd: CommandView,
    result: Result<(), ErrorView>,
)
    requires
        handled(before, after, id, cmd, result),
        before.endpoints.contains_key(id),
        !before.endpoints[id].permissions.contains(cmd.required_permission()),
    ensures
        result == Err::<(), ErrorView>(denied(cmd)),
        after.channels == before.channels,
        forall|k: EndpointId|
            k != id && before.endpoints.contains_key(k) ==> #[trigger] after.endpoints[k]
                == before.endpoints[k],
        replied(
            before,
            after,
            id,
            EventView::Error("Permission denied: "@ + cmd.required_permission().tag_text()),
        ),
{
}

/// Every command gets exactly one reply, unless the endpoint's queue
/// refuses it: an acknowledgement if the command succeeded, the error's text
/// if it failed.
pub proof fn one_reply_per_command(
    before: DirectoryView,
    after: DirectoryView,
    id: EndpointId,
    cmd: CommandView,
    result: Result<(), ErrorView>,
)
    requires
        handled(before, after, id, cmd, result),
        before.endpoints.contains_key(id),
    ensures
        ({
            let mid = if before.endpoints[id].permissions.contains(cmd.required_permission()) {
                executed(before, id, cmd, after.channels[cmd.channel()]).0
            } else {
                before
            };
            replied(mid, after, id, reply_for(cmd, result))
        }),
        result is Ok ==> reply_for(cmd, result) == EventView::Success(cmd.ack_text()),
        result is Err ==> reply_for(cmd, result) == EventView::Error(result->Err_0.text()),
{
}

/// Subscribing twice leaves the same subscriptions as subscribing once.
pub proof fn subscribing_twice_is_once(d: DirectoryView, c: Seq<char>, id: EndpointId)
    requires
        d.channels.contains_key(c),
    ensures
        d.with_subscriber(c, id).with_subscriber(c, id) == d.with_subscriber(c, id),
{
    let once = d.with_subscriber(c, id);
    assert(once.channels[c].insert(id) =~= once.channels[c]);
    assert(once.channels.insert(c, once.channels[c]) =~= once.channels);
}

/// An id is not handed out twice in a row.
pub proof fn next_id_is_fresh(v: u64)
    ensures
        successor(v) != v,
        v < u64::MAX ==> successor(v) > v,
{
}

/// One event in the life of a listener.
pub enum ListenerEvent {
    /// A connection arrives. It gets a handler if the listener has a free slot.
    Arrival,
    /// The handler of the connection that arrived as event number `0` of the
    /// history ends, and so on.
    Exit(int),
}

/// The handlers that are live after `history` at a listener that lets in
/// `ceiling` connections at most, each named by the number of the arrival
/// that started it.
pub open spec fn live_handlers(ceiling: nat, history: Seq<ListenerEvent>) -> Set<int>
    decreases history.len(),
{
    if history.len() == 0 {
        Set::empty()
    } else {
        let before = live_handlers(ceiling, history.drop_last());
        match history.last() {
            ListenerEvent::Arrival => if before.len() < ceiling {
                before.insert(history.len() - 1)
            } else {
                before
            },
            ListenerEvent::Exit(k) => before.remove(k),
        }
    }
}

/// Whether every exit in `history` is that of a handler that was live.
pub open spec fn orderly(ceiling: nat, history: Seq<ListenerEvent>) -> bool {
    forall|i: int|
        0 <= i < history.len() && (#[trigger] history[i]) is Exit ==> live_handlers(
            ceiling,
            history.take(i),
        ).contains(history[i]->Exit_0)
}

/// What the connection counter shows after `history`: each arrival is a
/// `try_increment`, each exit a `decrement`.
pub open spec fn count_after(ceiling: nat, history: Seq<ListenerEvent>) -> nat
    decreases history.len(),
{
    if history.len() == 0 {
        0
    } else {
        let before = count_after(ceiling, history.drop_last());
        match history.last() {
            ListenerEvent::Arrival => after_arrival(before, ceiling),
            ListenerEvent::Exit(_) => after_exit(before),
        }
    }
}

/// After any orderly history the counter shows the number of live
/// handlers, and that number is within the ceiling.
pub proof fn count_is_live_handlers(ceiling: nat, history: Seq<ListenerEvent>)
    requires
        orderly(ceiling, history),
    ensures
        live_handlers(ceiling, history).finite(),
        count_after(ceiling, history) == live_handlers(ceiling, history).len(),
        count_after(ceiling, history) <= ceiling,
        forall|k: int| live_handlers(ceiling, history).contains(k) ==> 0 <= k < history.len(),
    decreases history.len(),
{
    if history.len() > 0 {
        let last = history.len() - 1;
        let shorter = history.drop_last();
        assert(history.take(last) =~= shorter);
        orderly_so_far(ceiling, history, last);
        count_is_live_handlers(ceiling, shorter);
        let before = live_handlers(ceiling, shorter);
        match history.last() {
            ListenerEvent::Arrival => {
                assert(!before.contains(last));
            },
            ListenerEvent::Exit(k) => {
                assert(history[last] is Exit);
                assert(before.contains(k));
            },
        }
    }
}

/// The first part of an orderly history is orderly.
pub proof fn orderly_so_far(ceiling: nat, history: Seq<ListenerEvent>, n: int)
    requires
        orderly(ceiling, history),
        0 <= n <= history.len(),
    ensures
        orderly(ceiling, history.take(n)),
{
    let part = history.take(n);
    assert forall|i: int| 0 <= i < part.len() && (#[trigger] part[i]) is Exit implies live_handlers(
        ceiling,
        part.take(i),
    ).contains(part[i]->Exit_0) by {
        assert(part.take(i) =~= history.take(i));
        assert(history[i] is Exit);
    }
}

/// A handler that has ended is not live at any later time.
proof fn ended_stays_ended(ceiling: nat, history: Seq<ListenerEvent>, i: int, n: int)
    requires
        orderly(ceiling, history),
        0 <= i < n <= history.len(),
        history[i] is Exit,
    ensures
        !live_handlers(ceiling, history.take(n)).contains(history[i]->Exit_0),
    decreases n,
{
    let k = history[i]->Exit_0;
    let part = history.take(n);
    assert(part.drop_last() =~= history.take(n - 1));
    assert(part.last() == history[n - 1]);
    if n == i + 1 {
    } else {
        ended_stays_ended(ceiling, history, i, n - 1);
        orderly_so_far(ceiling, history, i);
        count_is_live_handlers(ceiling, history.take(i));
        assert(live_handlers(ceiling, history.take(i)).contains(k));
        assert(k < i);
    }
}

/// In an orderly history no handler ends twice: each connection that was
/// let in is closed, and its endpoint unregistered, once at most.
pub proof fn no_handler_ends_twice(ceiling: nat, history: Seq<ListenerEvent>, i: int, j: int)
    requires
        orderly(ceiling, history),
        0 <= i < j < history.len(),
        history[i] is Exit,
        history[j] is Exit,
    ensures
        history[i]->Exit_0 != history[j]->Exit_0,
{
    ended_stays_ended(ceiling, history, i, j);
    assert(live_handlers(ceiling, history.take(j)).contains(history[j]->Exit_0));
}

} // verus!
