//! A named fan-out group: the set of subscribed endpoints, and the publish
//! algorithm that copies one message onto every subscriber's outbound queue.

use vstd::prelude::*;
use vstd::string::*;
use std::collections::HashMap;
use crate::directory::Directory;
use crate::endpoint::{Endpoint, EndpointId, delivered_to, registry_view};
use crate::error::AppError;
use crate::message::{ChannelId, ChannelMessage, ClientCommand, EventView};

verus! {

/// Whether `s` is in strictly ascending order.
pub open spec fn ascending(s: Seq<EndpointId>) -> bool {
    forall|i: int, j: int| 0 <= i < j < s.len() ==> s[i] < s[j]
}

/// Whether `x` is among the first `i` items of `s`.
spec fn visited(s: Seq<EndpointId>, i: int, x: EndpointId) -> bool {
    exists|k: int| 0 <= k < i && s[k] == x
}

/// A channel: its id and its subscribers.
#[derive(Debug)]
pub struct Channel {
    pub channel_id: ChannelId,
    /// The subscribers' ids, ascending: fan-out visits them in this order.
    subscriptions: Vec<EndpointId>,
}

impl Channel {
    /// The channel's id.
    pub closed spec fn ident(&self) -> Seq<char> {
        self.channel_id@
    }

    /// The ids of the subscribed endpoints.
    pub closed spec fn subscribers(&self) -> Set<EndpointId> {
        self.subscriptions@.to_set()
    }

    /// The subscribers in the order in which fan-out visits them.
    pub closed spec fn fan_out_order(&self) -> Seq<EndpointId> {
        self.subscriptions@
    }

    /// The representation invariant: the subscribers are kept in ascending
    /// order of their ids, each once.
    pub closed spec fn wf(&self) -> bool {
        ascending(self.subscriptions@)
    }

    /// The fan-out order holds exactly the subscribers, ascending.
    pub proof fn fan_out_order_is_ascending(&self)
        requires
            self.wf(),
        ensures
            ascending(self.fan_out_order()),
            self.fan_out_order().to_set() == self.subscribers(),
            self.fan_out_order().no_duplicates(),
    {
    }

    pub fn new(channel_id: ChannelId) -> (c: Self)
        ensures
            c.wf(),
            c.ident() == channel_id@,
            c.subscribers() == Set::<EndpointId>::empty(),
    {
        let c = Channel { channel_id, subscriptions: Vec::new() };
        assert(c.subscriptions@.to_set() =~= Set::<EndpointId>::empty());
        c
    }

    /// The channel's id.
    pub fn id(&self) -> (id: &ChannelId)
        ensures
            id@ == self.ident(),
    {
        &self.channel_id
    }

    /// The index of the first subscriber whose id is not below `id`.
    fn lower_bound(&self, id: EndpointId) -> (pos: usize)
        requires
            self.wf(),
        ensures
            pos <= self.subscriptions@.len(),
            forall|k: int| 0 <= k < pos ==> self.subscriptions@[k] < id,
            forall|k: int| pos <= k < self.subscriptions@.len() ==> self.subscriptions@[k] >= id,
    {
        let mut lo: usize = 0;
        let mut hi: usize = self.subscriptions.len();
        while lo < hi
            invariant
                self.wf(),
                lo <= hi <= self.subscriptions@.len(),
                forall|k: int| 0 <= k < lo ==> self.subscriptions@[k] < id,
                forall|k: int| hi <= k < self.subscriptions@.len() ==> self.subscriptions@[k] >= id,
            decreases hi - lo,
        {
            let mid: usize = lo + (hi - lo) / 2;
            if self.subscriptions[mid] < id {
                lo = mid + 1;
            } else {
                hi = mid;
            }
        }
        lo
    }

    /// Whether the endpoint `endpoint_id` is subscribed.
    pub fn is_subscribed(&self, endpoint_id: EndpointId) -> (b: bool)
        requires
            self.wf(),
        ensures
            b == self.subscribers().contains(endpoint_id),
    {
        let pos: usize = self.lower_bound(endpoint_id);
        let found = pos < self.subscriptions.len() && self.subscriptions[pos] == endpoint_id;
        proof {
            if found {
                assert(self.subscriptions@.contains(endpoint_id));
            } else if self.subscriptions@.contains(endpoint_id) {
                let k = choose|k: int|
                    0 <= k < self.subscriptions@.len() && self.subscriptions@[k] == endpoint_id;
                assert(false);
            }
        }
        found
    }

    /// The number of subscribers.
    pub fn subscriber_count(&self) -> (n: usize)
        requires
            self.wf(),
        ensures
            n == self.subscribers().len(),
    {
        proof {
            self.subscriptions@.unique_seq_to_set();
        }
        self.subscriptions.len()
    }

    /// Adds the endpoint to the subscribers. Subscribing one that is already
    /// there changes nothing.
    pub fn subscribe(&mut self, endpoint_id: EndpointId) -> (r: Result<(), AppError>)
        requires
            old(self).wf(),
        ensures
            r is Ok,
            final(self).wf(),
            final(self).ident() == old(self).ident(),
            final(self).subscribers() == old(self).subscribers().insert(endpoint_id),
    {
        let pos: usize = self.lower_bound(endpoint_id);
        if pos < self.subscriptions.len() && self.subscriptions[pos] == endpoint_id {
            proof {
                assert(self.subscriptions@.contains(endpoint_id));
                assert(self.subscribers() =~= old(self).subscribers().insert(endpoint_id));
            }
        } else {
            let ghost before = self.subscriptions@;
            self.subscriptions.insert(pos, endpoint_id);
            proof {
                let after = self.subscriptions@;
                assert(after.len() == before.len() + 1);
                assert(forall|k: int| 0 <= k < pos ==> after[k] == before[k]);
                assert(after[pos as int] == endpoint_id);
                assert(forall|k: int| pos < k < after.len() ==> after[k] == before[k - 1]);
                assert forall|x: EndpointId|
                    after.to_set().contains(x) <==> before.to_set().insert(endpoint_id).contains(
                        x,
                    ) by {
                    if before.contains(x) {
                        let k = choose|k: int| 0 <= k < before.len() && before[k] == x;
                        if k < pos {
                            assert(after[k] == x);
                        } else {
                            assert(after[k + 1] == x);
                        }
                    }
                    if x == endpoint_id {
                        assert(after[pos as int] == x);
                    }
                    if after.contains(x) {
                        let k = choose|k: int| 0 <= k < after.len() && after[k] == x;
                        if k < pos {
                            assert(before[k] == x);
                        } else if k > pos {
                            assert(before[k - 1] == x);
                        }
                    }
                }
                assert(after.to_set() =~= before.to_set().insert(endpoint_id));
            }
        }
        Ok(())
    }

    /// Removes the endpoint from the subscribers if it is there.
    pub fn unsubscribe(&mut self, endpoint_id: &EndpointId) -> (r: Result<(), AppError>)
        requires
            old(self).wf(),
        ensures
            r is Ok,
            final(self).wf(),
            final(self).ident() == old(self).ident(),
            final(self).subscribers() == old(self).subscribers().remove(*endpoint_id),
    {
        let id: EndpointId = *endpoint_id;
        let pos: usize = self.lower_bound(id);
        let ghost before = self.subscriptions@;
        if pos < self.subscriptions.len() && self.subscriptions[pos] == id {
            let _ = self.subscriptions.remove(pos);
            proof {
                let after = self.subscriptions@;
                assert(after.len() == before.len() - 1);
                assert(forall|k: int| 0 <= k < pos ==> after[k] == before[k]);
                assert(forall|k: int| pos <= k < after.len() ==> after[k] == before[k + 1]);
                assert forall|x: EndpointId|
                    after.to_set().contains(x) <==> before.to_set().remove(id).contains(x) by {
                    if before.contains(x) && x != id {
                        let k = choose|k: int| 0 <= k < before.len() && before[k] == x;
                        if k < pos {
                            assert(after[k] == x);
                        } else {
                            assert(after[k - 1] == x);
                        }
                    }
                    if after.contains(x) {
                        let k = choose|k: int| 0 <= k < after.len() && after[k] == x;
                        if k < pos {
                            assert(before[k] == x);
                        } else {
                            assert(before[k + 1] == x);
                        }
                    }
                }
                assert(after.to_set() =~= before.to_set().remove(id));
            }
        } else {
            proof {
                if before.contains(id) {
                    let k = choose|k: int| 0 <= k < before.len() && before[k] == id;
                    assert(false);
                }
                assert(before.to_set() =~= before.to_set().remove(id));
            }
        }
        Ok(())
    }

    /// Removes every endpoint listed in `dead` from the subscribers.
    pub fn prune(&mut self, dead: &Vec<EndpointId>)
        requires
            old(self).wf(),
        ensures
            final(self).wf(),
            final(self).ident() == old(self).ident(),
            final(self).subscribers() == old(self).subscribers().difference(dead@.to_set()),
    {
        let mut i: usize = 0;
        while i < dead.len()
            invariant
                i <= dead@.len(),
                self.wf(),
                self.ident() == old(self).ident(),
                self.subscribers() == old(self).subscribers().difference(
                    dead@.take(i as int).to_set(),
                ),
            decreases dead@.len() - i,
        {
            let ghost before = self.subscribers();
            let _ = self.unsubscribe(&dead[i]);
            proof {
                let done = dead@.take(i as int);
                let next = dead@.take(i + 1);
                assert(next =~= done.push(dead@[i as int]));
                assert forall|x: EndpointId|
                    next.to_set().contains(x) <==> (done.to_set().contains(x) || x == dead@[i as int]) by {
                    if done.contains(x) {
                        let k = choose|k: int| 0 <= k < done.len() && done[k] == x;
                        assert(next[k] == x);
                    }
                    if x == dead@[i as int] {
                        assert(next[i as int] == x);
                    }
                    if next.contains(x) {
                        let k = choose|k: int| 0 <= k < next.len() && next[k] == x;
                        if k < i {
                            assert(done[k] == x);
                        }
                    }
                }
                assert(self.subscribers() =~= old(self).subscribers().difference(next.to_set()));
            }
            i = i + 1;
        }
        proof {
            assert(dead@.take(dead@.len() as int) =~= dead@);
        }
    }

    /// Fans `message` out to the subscribers, in ascending order of their
    /// ids: one `ChannelMessage` event is offered to the outbound queue of
    /// each. A subscriber that is not among `endpoints`, or whose queue
    /// refuses the event, is removed from the channel once all have been
    /// visited. So the subscribers that remain are exactly those whose queue
    /// took the event, and nothing else changes.
    pub fn fan_out(
        &mut self,
        endpoints: &mut HashMap<EndpointId, Endpoint>,
        message: ChannelMessage,
    ) -> (r: Result<(), AppError>)
        requires
            old(self).wf(),
        ensures
            r is Ok,
            final(self).wf(),
            final(self).ident() == old(self).ident(),
            final(self).subscribers().subset_of(old(self).subscribers()),
            final(self).subscribers().subset_of(old(endpoints)@.dom()),
            registry_view(final(endpoints)@) == delivered_to(
                registry_view(old(endpoints)@),
                final(self).subscribers(),
                EventView::ChannelMessage(old(self).ident(), message@),
            ),
    {
        let event = ClientCommand::ChannelMessage(self.channel_id.clone(), message);
        let ghost ev = event@;
        let ghost start = registry_view(endpoints@);
        let ghost subs = self.subscriptions@;
        let ghost mut kept: Set<EndpointId> = Set::empty();
        let mut prune: Vec<EndpointId> = Vec::new();
        let mut i: usize = 0;
        assert(registry_view(endpoints@) =~= delivered_to(start, kept, ev));
        while i < self.subscriptions.len()
            invariant
                i <= subs.len(),
                self.subscriptions@ == subs,
                self.channel_id == old(self).channel_id,
                ascending(subs),
                event@ == ev,
                start.dom() == old(endpoints)@.dom(),
                registry_view(endpoints@) == delivered_to(start, kept, ev),
                kept.subset_of(start.dom()),
                forall|x: EndpointId| kept.contains(x) ==> visited(subs, i as int, x),
                forall|x: EndpointId| prune@.contains(x) ==> visited(subs, i as int, x),
                forall|x: EndpointId| prune@.contains(x) ==> !kept.contains(x),
                forall|k: int| 0 <= k < i ==> kept.contains(subs[k]) || prune@.contains(subs[k]),
            decreases subs.len() - i,
        {
            let id: EndpointId = self.subscriptions[i];
            let ghost before = endpoints@;
            let ghost pruned = prune@;
            proof {
                if visited(subs, i as int, id) {
                    let k = choose|k: int| 0 <= k < i && subs[k] == id;
                    assert(subs[k] < subs[i as int]);
                }
                assert(!kept.contains(id) && !pruned.contains(id));
                assert(visited(subs, i + 1, id)) by {
                    assert(subs[i as int] == id);
                }
                assert forall|x: EndpointId| visited(subs, i as int, x) implies visited(
                    subs,
                    i + 1,
                    x,
                ) by {
                    let k = choose|k: int| 0 <= k < i && subs[k] == x;
                    assert(0 <= k < i + 1 && subs[k] == x);
                }
            }
            let taken = endpoints.remove(&id);
            let mut delivered = false;
            match taken {
                Some(mut endpoint) => {
                    let ghost idle = endpoint@;
                    assert(before.contains_key(id) && idle == before[id]@);
                    assert(start.contains_key(id) && idle == start[id]) by {
                        assert(registry_view(before).contains_key(id));
                        assert(delivered_to(start, kept, ev).contains_key(id));
                        assert(registry_view(before)[id] == delivered_to(start, kept, ev)[id]);
                    }
                    let copy = event.clone();
                    let sent = endpoint.send(copy);
                    delivered = sent.is_ok();
                    let _ = endpoints.insert(id, endpoint);
                    proof {
                        assert(endpoints@ =~= before.insert(id, endpoint));
                        if delivered {
                            assert(endpoint@ == start[id].with_delivery(ev));
                            let now = registry_view(endpoints@);
                            let goal = delivered_to(start, kept.insert(id), ev);
                            assert forall|k: EndpointId| now.contains_key(k) implies now[k]
                                == goal[k] by {
                                if k != id {
                                    assert(registry_view(before).contains_key(k));
                                    assert(registry_view(before)[k] == delivered_to(
                                        start,
                                        kept,
                                        ev,
                                    )[k]);
                                }
                            }
                            assert forall|k: EndpointId| now.contains_key(k)
                                <==> goal.contains_key(k) by {
                                assert(registry_view(before).contains_key(k) <==> delivered_to(
                                    start,
                                    kept,
                                    ev,
                                ).contains_key(k));
                            }
                            assert(now =~= goal);
                        } else {
                            assert(registry_view(endpoints@) =~= delivered_to(start, kept, ev));
                        }
                    }
                },
                None => {
                    assert(endpoints@ =~= before);
                },
            }
            if delivered {
                proof {
                    kept = kept.insert(id);
                }
            } else {
                prune.push(id);
                proof {
                    assert(prune@[pruned.len() as int] == id);
                    assert forall|x: EndpointId| prune@.contains(x) implies (pruned.contains(x)
                        || x == id) by {
                        let j = choose|j: int| 0 <= j < prune@.len() && prune@[j] == x;
                        if j < pruned.len() {
                            assert(pruned[j] == x);
                        }
                    }
                    assert forall|x: EndpointId| pruned.contains(x) implies prune@.contains(x) by {
                        let j = choose|j: int| 0 <= j < pruned.len() && pruned[j] == x;
                        assert(prune@[j] == x);
                    }
                    assert forall|x: EndpointId| prune@.contains(x) implies visited(
                        subs,
                        i + 1,
                        x,
                    ) by {
                        if x != id {
                            assert(pruned.contains(x));
                        }
                    }
                }
            }
            i = i + 1;
        }
        self.prune(&prune);
        proof {
            assert forall|x: EndpointId| self.subscribers().contains(x) <==> kept.contains(x) by {
                if kept.contains(x) {
                    let k = choose|k: int| 0 <= k < i && subs[k] == x;
                    assert(subs.contains(x));
                }
                if subs.contains(x) && !prune@.contains(x) {
                    let k = choose|k: int| 0 <= k < subs.len() && subs[k] == x;
                    assert(kept.contains(subs[k]) || prune@.contains(subs[k]));
                }
            }
            assert(self.subscribers() =~= kept);
        }
        Ok(())
    }

    /// Publishes `message` to the subscribers that are registered in
    /// `directory`: see [`Channel::fan_out`]. It succeeds whatever becomes of
    /// the single deliveries.
    pub fn publish(&mut self, directory: &mut Directory, message: ChannelMessage) -> (r: Result<
        (),
        AppError,
    >)
        requires
            old(self).wf(),
            old(directory).wf(),
        ensures
            r is Ok,
            final(self).wf(),
            final(directory).wf(),
            final(self).ident() == old(self).ident(),
            final(self).subscribers().subset_of(old(self).subscribers()),
            final(self).subscribers().subset_of(old(directory)@.endpoints.dom()),
            final(directory)@.channels == old(directory)@.channels,
            final(directory)@.endpoints == delivered_to(
                old(directory)@.endpoints,
                final(self).subscribers(),
                EventView::ChannelMessage(old(self).ident(), message@),
            ),
    {
        directory.deliver(self, message)
    }

    /// The subscribers' ids in ascending order.
    pub fn subscriber_ids(&self) -> (ids: Vec<EndpointId>)
        requires
            self.wf(),
        ensures
            ids@ == self.fan_out_order(),
    {
        self.subscriptions.clone()
    }
}

} // verus!
