//! The registry of live endpoints and existing channels.

use vstd::prelude::*;
use vstd::string::*;
use std::collections::HashMap;
use crate::channel::Channel;
use crate::endpoint::{
    Endpoint, EndpointId, EndpointView, delivered_to, registry_view, registry_wf,
};
use crate::error::{AppError, ErrorView};
use crate::message::{ChannelId, ChannelMessage, ClientCommand, EventView};
use crate::text::{decimal, decimal_digits};

verus! {

/// What the broker's contracts say of a [`Directory`]: the subscribers of
/// each channel, and each registered endpoint.
pub struct DirectoryView {
    pub channels: Map<Seq<char>, Set<EndpointId>>,
    pub endpoints: Map<EndpointId, EndpointView>,
}

impl DirectoryView {
    /// The directory with the endpoint `e` filed under its id.
    pub open spec fn with_endpoint(self, e: EndpointView) -> DirectoryView {
        DirectoryView { endpoints: self.endpoints.insert(e.id, e), ..self }
    }

    /// The directory without the endpoint `id`. Channels keep their entry
    /// for it until the next fan-out.
    pub open spec fn without_endpoint(self, id: EndpointId) -> DirectoryView {
        DirectoryView { endpoints: self.endpoints.remove(id), ..self }
    }

    /// The directory with a new channel `c` that nobody is subscribed to.
    pub open spec fn with_channel(self, c: Seq<char>) -> DirectoryView {
        DirectoryView { channels: self.channels.insert(c, Set::empty()), ..self }
    }

    /// The directory with `id` among the subscribers of the channel `c`.
    pub open spec fn with_subscriber(self, c: Seq<char>, id: EndpointId) -> DirectoryView {
        DirectoryView { channels: self.channels.insert(c, self.channels[c].insert(id)), ..self }
    }

    /// The directory after the queue of the endpoint `id` accepted `ev`.
    pub open spec fn with_delivery(self, id: EndpointId, ev: EventView) -> DirectoryView {
        DirectoryView {
            endpoints: self.endpoints.insert(id, self.endpoints[id].with_delivery(ev)),
            ..self
        }
    }

    /// Whether `survivors` can be what is left of the subscribers of `c`
    /// after a fan-out: subscribers that are registered endpoints.
    pub open spec fn can_survive(self, c: Seq<char>, survivors: Set<EndpointId>) -> bool {
        &&& self.channels.contains_key(c)
        &&& survivors.subset_of(self.channels[c])
        &&& survivors.subset_of(self.endpoints.dom())
    }

    /// The directory after a fan-out of `ev` on the channel `c` in which the
    /// queues of exactly the endpoints in `survivors` took the event: these
    /// stay subscribed, each with the event at the end of its queue; the
    /// other subscribers are gone from the channel; nothing else changes.
    pub open spec fn after_fan_out(
        self,
        c: Seq<char>,
        ev: EventView,
        survivors: Set<EndpointId>,
    ) -> DirectoryView {
        DirectoryView {
            channels: self.channels.insert(c, survivors),
            endpoints: delivered_to(self.endpoints, survivors, ev),
        }
    }
}

/// The detail of the error for a second endpoint under one id.
pub open spec fn duplicate_endpoint_text(id: EndpointId) -> Seq<char> {
    "Endpoint "@ + decimal_digits(id as nat) + " already registered"@
}

/// The detail of the error for a second channel under one id.
pub open spec fn duplicate_channel_text(c: Seq<char>) -> Seq<char> {
    "Channel '"@ + c + "' is already registered"@
}

spec fn distinct_ids(s: Seq<Channel>) -> bool {
    forall|i: int, j: int| 0 <= i < j < s.len() ==> s[i].ident() != s[j].ident()
}

spec fn has_channel(s: Seq<Channel>, id: Seq<char>) -> bool {
    exists|i: int| 0 <= i < s.len() && s[i].ident() == id
}

spec fn channel_index(s: Seq<Channel>, id: Seq<char>) -> int {
    choose|i: int| 0 <= i < s.len() && s[i].ident() == id
}

spec fn channel_map(s: Seq<Channel>) -> Map<Seq<char>, Set<EndpointId>> {
    Map::new(
        |id: Seq<char>| has_channel(s, id),
        |id: Seq<char>| s[channel_index(s, id)].subscribers(),
    )
}

proof fn lemma_lookup(s: Seq<Channel>, i: int)
    requires
        distinct_ids(s),
        0 <= i < s.len(),
    ensures
        has_channel(s, s[i].ident()),
        channel_index(s, s[i].ident()) == i,
        channel_map(s).contains_key(s[i].ident()),
        channel_map(s)[s[i].ident()] == s[i].subscribers(),
{
    assert(has_channel(s, s[i].ident()));
    let j = channel_index(s, s[i].ident());
    assert(0 <= j < s.len() && s[j].ident() == s[i].ident());
    if j < i {
        assert(s[j].ident() != s[i].ident());
    } else if i < j {
        assert(s[i].ident() != s[j].ident());
    }
}

proof fn lemma_push(s: Seq<Channel>, c: Channel)
    requires
        distinct_ids(s),
        !has_channel(s, c.ident()),
    ensures
        distinct_ids(s.push(c)),
        channel_map(s.push(c)) == channel_map(s).insert(c.ident(), c.subscribers()),
{
    let t = s.push(c);
    assert forall|i: int, j: int| 0 <= i < j < t.len() implies t[i].ident() != t[j].ident() by {
        if j == s.len() {
            assert(s[i].ident() != c.ident());
        }
    }
    let goal = channel_map(s).insert(c.ident(), c.subscribers());
    assert forall|id: Seq<char>| channel_map(t).contains_key(id) <==> goal.contains_key(id) by {
        if has_channel(t, id) {
            let i = channel_index(t, id);
            if i < s.len() {
                assert(s[i].ident() == id);
            }
        }
        if has_channel(s, id) {
            let i = channel_index(s, id);
            assert(t[i].ident() == id);
        }
        if id == c.ident() {
            assert(t[s.len() as int].ident() == id);
        }
    }
    assert forall|id: Seq<char>| channel_map(t).contains_key(id) implies channel_map(t)[id]
        == goal[id] by {
        let i = channel_index(t, id);
        lemma_lookup(t, i);
        if i < s.len() {
            lemma_lookup(s, i);
        }
    }
    assert(channel_map(t) =~= goal);
}

proof fn lemma_update(s: Seq<Channel>, i: int, c: Channel)
    requires
        distinct_ids(s),
        0 <= i < s.len(),
        c.ident() == s[i].ident(),
    ensures
        distinct_ids(s.update(i, c)),
        channel_map(s.update(i, c)) == channel_map(s).insert(c.ident(), c.subscribers()),
{
    let t = s.update(i, c);
    assert forall|a: int, b: int| 0 <= a < b < t.len() implies t[a].ident() != t[b].ident() by {
        assert(t[a].ident() == s[a].ident());
        assert(t[b].ident() == s[b].ident());
    }
    let goal = channel_map(s).insert(c.ident(), c.subscribers());
    assert forall|id: Seq<char>| channel_map(t).contains_key(id) <==> goal.contains_key(id) by {
        if has_channel(t, id) {
            let k = channel_index(t, id);
            assert(s[k].ident() == id);
        }
        if has_channel(s, id) {
            let k = channel_index(s, id);
            assert(t[k].ident() == id);
        }
        if id == c.ident() {
            assert(t[i].ident() == id);
        }
    }
    assert forall|id: Seq<char>| channel_map(t).contains_key(id) implies channel_map(t)[id]
        == goal[id] by {
        let k = channel_index(t, id);
        lemma_lookup(t, k);
        if k != i {
            assert(s[k].ident() == id);
            lemma_lookup(s, k);
        }
    }
    assert(channel_map(t) =~= goal);
}

proof fn lemma_delivery_keeps_filing(
    before: Map<EndpointId, Endpoint>,
    after: Map<EndpointId, Endpoint>,
    ids: Set<EndpointId>,
    ev: EventView,
)
    requires
        registry_wf(before),
        registry_view(after) == delivered_to(registry_view(before), ids, ev),
    ensures
        registry_wf(after),
{
    let goal = delivered_to(registry_view(before), ids, ev);
    assert forall|k: EndpointId| after.contains_key(k) implies (#[trigger] after[k])@.id == k by {
        assert(registry_view(after).contains_key(k));
        assert(goal.contains_key(k));
        assert(registry_view(before).contains_key(k));
        assert(registry_view(after)[k] == goal[k]);
        assert(registry_view(after)[k] == after[k]@);
        assert(registry_view(before)[k] == before[k]@);
        assert(before[k]@.id == k);
        assert(goal[k].id == before[k]@.id);
    }
}

/// The registry: the channels, and the endpoints by id.
#[derive(Debug)]
pub struct Directory {
    channels_by_id: Vec<Channel>,
    endpoints_by_id: HashMap<EndpointId, Endpoint>,
}

impl View for Directory {
    type V = DirectoryView;

    closed spec fn view(&self) -> DirectoryView {
        DirectoryView {
            channels: channel_map(self.channels_by_id@),
            endpoints: registry_view(self.endpoints_by_id@),
        }
    }
}

impl Directory {
    /// The representation invariant: no two channels share an id, each
    /// channel is well formed, and each endpoint is filed under its own id.
    pub closed spec fn wf(&self) -> bool {
        &&& distinct_ids(self.channels_by_id@)
        &&& forall|i: int|
            0 <= i < self.channels_by_id@.len() ==> (#[trigger] self.channels_by_id@[i]).wf()
        &&& registry_wf(self.endpoints_by_id@)
    }

    /// In a well-formed directory every endpoint is filed under its own id.
    pub proof fn endpoints_are_filed_by_id(&self)
        requires
            self.wf(),
        ensures
            forall|k: EndpointId|
                self@.endpoints.contains_key(k) ==> (#[trigger] self@.endpoints[k]).id == k,
    {
    }

    pub fn new() -> (d: Self)
        ensures
            d.wf(),
            d@.channels == Map::<Seq<char>, Set<EndpointId>>::empty(),
            d@.endpoints == Map::<EndpointId, EndpointView>::empty(),
    {
        let d = Directory { channels_by_id: Vec::new(), endpoints_by_id: HashMap::new() };
        assert(d@.channels =~= Map::<Seq<char>, Set<EndpointId>>::empty());
        assert(d@.endpoints =~= Map::<EndpointId, EndpointView>::empty());
        d
    }

    /// Files `endpoint` under its id, unless that id is taken.
    pub fn register_endpoint(&mut self, endpoint: Endpoint) -> (r: Result<(), AppError>)
        requires
            old(self).wf(),
        ensures
            final(self).wf(),
            match r {
                Ok(()) => {
                    &&& !old(self)@.endpoints.contains_key(endpoint@.id)
                    &&& final(self)@ == old(self)@.with_endpoint(endpoint@)
                },
                Err(e) => {
                    &&& old(self)@.endpoints.contains_key(endpoint@.id)
                    &&& final(self)@ == old(self)@
                    &&& e@ == ErrorView::Generic(duplicate_endpoint_text(endpoint@.id))
                },
            },
    {
        let id: EndpointId = endpoint.id();
        // would be weird if this was registered twice
        if self.endpoints_by_id.contains_key(&id) {
            let mut text: String = String::from_str("Endpoint ");
            text.append(decimal(id).as_str());
            text.append(" already registered");
            return Err(AppError::Generic(text));
        }
        let _ = self.endpoints_by_id.insert(id, endpoint);
        assert(self@.endpoints =~= old(self)@.endpoints.insert(id, endpoint@));
        Ok(())
    }

    /// Removes the endpoint `endpoint_id` if it is registered. The channels
    /// it is subscribed to keep their entry until their next fan-out.
    pub fn unregister_endpoint(&mut self, endpoint_id: &EndpointId) -> (r: Result<(), AppError>)
        requires
            old(self).wf(),
        ensures
            final(self).wf(),
            r is Ok,
            final(self)@ == old(self)@.without_endpoint(*endpoint_id),
    {
        let _ = self.endpoints_by_id.remove(endpoint_id);
        assert(self@.endpoints =~= old(self)@.endpoints.remove(*endpoint_id));
        Ok(())
    }

    pub fn find_endpoint(&self, endpoint_id: &EndpointId) -> (r: Option<&Endpoint>)
        requires
            self.wf(),
        ensures
            match r {
                Some(e) => self@.endpoints.contains_key(*endpoint_id) && e@
                    == self@.endpoints[*endpoint_id],
                None => !self@.endpoints.contains_key(*endpoint_id),
            },
    {
        self.endpoints_by_id.get(endpoint_id)
    }

    /// The position of the channel `channel_id` among the channels.
    fn position(&self, channel_id: &ChannelId) -> (r: Option<usize>)
        requires
            self.wf(),
        ensures
            match r {
                Some(i) => {
                    &&& i < self.channels_by_id@.len()
                    &&& self.channels_by_id@[i as int].ident() == channel_id@
                    &&& self@.channels.contains_key(channel_id@)
                    &&& self@.channels[channel_id@] == self.channels_by_id@[i as int].subscribers()
                },
                None => !self@.channels.contains_key(channel_id@),
            },
    {
        let mut i: usize = 0;
        while i < self.channels_by_id.len()
            invariant
                self.wf(),
                i <= self.channels_by_id@.len(),
                forall|k: int| 0 <= k < i ==> self.channels_by_id@[k].ident() != channel_id@,
            decreases self.channels_by_id@.len() - i,
        {
            if *self.channels_by_id[i].id() == *channel_id {
                proof {
                    lemma_lookup(self.channels_by_id@, i as int);
                }
                return Some(i);
            }
            i = i + 1;
        }
        None
    }

    /// Create a channel.
    /// Does not subscribe, only creates.
    /// Endpoints do not need to be subscribed to publish messages to the channel.
    pub fn create_channel(&mut self, channel_id: ChannelId) -> (r: Result<(), AppError>)
        requires
            old(self).wf(),
        ensures
            final(self).wf(),
            match r {
                Ok(()) => {
                    &&& !old(self)@.channels.contains_key(channel_id@)
                    &&& final(self)@ == old(self)@.with_channel(channel_id@)
                },
                Err(e) => {
                    &&& old(self)@.channels.contains_key(channel_id@)
                    &&& final(self)@ == old(self)@
                    &&& e@ == ErrorView::Generic(duplicate_channel_text(channel_id@))
                },
            },
    {
        if self.position(&channel_id).is_some() {
            let mut text: String = String::from_str("Channel '");
            text.append(channel_id.as_str());
            text.append("' is already registered");
            return Err(AppError::Generic(text));
        }
        let channel = Channel::new(channel_id);
        proof {
            lemma_push(self.channels_by_id@, channel);
        }
        self.channels_by_id.push(channel);
        Ok(())
    }

    pub fn find_channel(&self, channel_id: &ChannelId) -> (r: Option<&Channel>)
        requires
            self.wf(),
        ensures
            match r {
                Some(c) => {
                    &&& self@.channels.contains_key(channel_id@)
                    &&& c.wf()
                    &&& c.ident() == channel_id@
                    &&& c.subscribers() == self@.channels[channel_id@]
                },
                None => !self@.channels.contains_key(channel_id@),
            },
    {
        match self.position(channel_id) {
            Some(i) => Some(&self.channels_by_id[i]),
            None => None,
        }
    }

    /// Subscribe the endpoint to the given channel id.
    pub fn subscribe_to_channel(&mut self, channel_id: &ChannelId, endpoint_id: EndpointId) -> (r:
        Result<(), AppError>)
        requires
            old(self).wf(),
        ensures
            final(self).wf(),
            match r {
                Ok(()) => {
                    &&& old(self)@.channels.contains_key(channel_id@)
                    &&& final(self)@ == old(self)@.with_subscriber(channel_id@, endpoint_id)
                },
                Err(e) => {
                    &&& !old(self)@.channels.contains_key(channel_id@)
                    &&& final(self)@ == old(self)@
                    &&& e@ == ErrorView::ChannelNotFound(channel_id@)
                },
            },
    {
        match self.position(channel_id) {
            Some(i) => {
                let channel = &mut self.channels_by_id[i];
                let r = channel.subscribe(endpoint_id);
                proof {
                    lemma_update(old(self).channels_by_id@, i as int, self.channels_by_id@[i as int]);
                    assert(self.channels_by_id@ =~= old(self).channels_by_id@.update(
                        i as int,
                        self.channels_by_id@[i as int],
                    ));
                }
                r
            },
            None => Err(AppError::ChannelNotFound(channel_id.clone())),
        }
    }

    /// Publishes `message` on the channel `channel_id`: see
    /// [`Channel::fan_out`]. The subscribers that remain are exactly those
    /// whose queue took the event.
    pub fn publish(&mut self, channel_id: &ChannelId, message: ChannelMessage) -> (r: Result<
        (),
        AppError,
    >)
        requires
            old(self).wf(),
        ensures
            final(self).wf(),
            match r {
                Ok(()) => {
                    &&& old(self)@.can_survive(channel_id@, final(self)@.channels[channel_id@])
                    &&& final(self)@ == old(self)@.after_fan_out(
                        channel_id@,
                        EventView::ChannelMessage(channel_id@, message@),
                        final(self)@.channels[channel_id@],
                    )
                },
                Err(e) => {
                    &&& !old(self)@.channels.contains_key(channel_id@)
                    &&& final(self)@ == old(self)@
                    &&& e@ == ErrorView::ChannelNotFound(channel_id@)
                },
            },
    {
        match self.position(channel_id) {
            Some(i) => {
                let channel = &mut self.channels_by_id[i];
                let r = channel.fan_out(&mut self.endpoints_by_id, message);
                proof {
                    let now = self.channels_by_id@[i as int];
                    lemma_update(old(self).channels_by_id@, i as int, now);
                    assert(self.channels_by_id@ =~= old(self).channels_by_id@.update(i as int, now));
                    lemma_lookup(self.channels_by_id@, i as int);
                    assert(self@.channels[channel_id@] == now.subscribers());
                    assert(old(self)@.endpoints.dom() =~= old(self).endpoints_by_id@.dom());
                    lemma_delivery_keeps_filing(
                        old(self).endpoints_by_id@,
                        self.endpoints_by_id@,
                        now.subscribers(),
                        EventView::ChannelMessage(channel_id@, message@),
                    );
                }
                r
            },
            None => Err(AppError::ChannelNotFound(channel_id.clone())),
        }
    }

    /// Publishes `message` on `channel`, a channel that need not be one of
    /// this directory's, to the endpoints registered here: see
    /// [`Channel::fan_out`].
    pub fn deliver(&mut self, channel: &mut Channel, message: ChannelMessage) -> (r: Result<
        (),
        AppError,
    >)
        requires
            old(self).wf(),
            old(channel).wf(),
        ensures
            r is Ok,
            final(self).wf(),
            final(channel).wf(),
            final(channel).ident() == old(channel).ident(),
            final(channel).subscribers().subset_of(old(channel).subscribers()),
            final(channel).subscribers().subset_of(old(self)@.endpoints.dom()),
            final(self)@.channels == old(self)@.channels,
            final(self)@.endpoints == delivered_to(
                old(self)@.endpoints,
                final(channel).subscribers(),
                EventView::ChannelMessage(old(channel).ident(), message@),
            ),
    {
        let r = channel.fan_out(&mut self.endpoints_by_id, message);
        proof {
            assert(old(self)@.endpoints.dom() =~= old(self).endpoints_by_id@.dom());
            lemma_delivery_keeps_filing(
                old(self).endpoints_by_id@,
                self.endpoints_by_id@,
                channel.subscribers(),
                EventView::ChannelMessage(old(channel).ident(), message@),
            );
        }
        r
    }

    /// Offers `event` to the outbound queue of the endpoint `endpoint_id`.
    pub fn send_to(&mut self, endpoint_id: EndpointId, event: ClientCommand) -> (r: Result<
        (),
        AppError,
    >)
        requires
            old(self).wf(),
        ensures
            final(self).wf(),
            match r {
                Ok(()) => {
                    &&& old(self)@.endpoints.contains_key(endpoint_id)
                    &&& final(self)@ == old(self)@.with_delivery(endpoint_id, event@)
                },
                Err(e) => {
                    &&& final(self)@ == old(self)@
                    &&& if old(self)@.endpoints.contains_key(endpoint_id) {
                        e@ is ChannelSend
                    } else {
                        e@ == ErrorView::EndpointNotFound(decimal_digits(endpoint_id as nat))
                    }
                },
            },
    {
        let ghost before = self.endpoints_by_id@;
        match self.endpoints_by_id.remove(&endpoint_id) {
            Some(mut endpoint) => {
                let r = endpoint.send(event);
                let _ = self.endpoints_by_id.insert(endpoint_id, endpoint);
                proof {
                    assert(self.endpoints_by_id@ =~= before.insert(endpoint_id, endpoint));
                    if r is Ok {
                        assert(self@.endpoints =~= old(self)@.endpoints.insert(
                            endpoint_id,
                            old(self)@.endpoints[endpoint_id].with_delivery(event@),
                        ));
                    } else {
                        assert(self@.endpoints =~= old(self)@.endpoints);
                    }
                }
                r
            },
            None => {
                assert(self.endpoints_by_id@ =~= before);
                Err(AppError::EndpointNotFound(decimal(endpoint_id)))
            },
        }
    }
}

} // verus!
