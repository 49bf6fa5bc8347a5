//! The factory that mints endpoints and registers them with the directory.

use vstd::prelude::*;
use vstd::string::*;
use crate::directory::{Directory, duplicate_endpoint_text};
use crate::endpoint::{Endpoint, EndpointId, EndpointView};
use crate::error::{AppError, ErrorView};
use crate::queue::{OutboundReceiver, MAX_QUEUE_CAPACITY};
use crate::settings::{Permission, PermissionSet};

verus! {

/// How a listener wants its endpoints made.
#[derive(Debug, Clone, Copy)]
pub struct EndpointFactorySettings {
    pub default_endpoint_permissions: PermissionSet,
    /// Capacity of the outbound queue; `None` or zero for an unbounded one.
    pub channel_buffer_size: Option<usize>,
}

impl Default for EndpointFactorySettings {
    fn default() -> (s: Self)
        ensures
            s.default_endpoint_permissions@ == Set::<Permission>::empty(),
            s.channel_buffer_size is None,
    {
        EndpointFactorySettings {
            default_endpoint_permissions: PermissionSet::new(),
            channel_buffer_size: None,
        }
    }
}

impl EndpointFactorySettings {
    /// The capacity of the outbound queue that these settings ask for:
    /// `None` for an unbounded queue.
    pub open spec fn queue_capacity(self) -> Option<nat> {
        match self.channel_buffer_size {
            Some(n) => if n > 0 {
                Some(n as nat)
            } else {
                None
            },
            None => None,
        }
    }

    /// The endpoint that these settings make under the id `id`.
    pub open spec fn fresh_endpoint(self, id: EndpointId) -> EndpointView {
        EndpointView {
            id,
            permissions: self.default_endpoint_permissions@,
            delivered: Seq::empty(),
            capacity: self.queue_capacity(),
        }
    }

    /// Whether the settings ask for a queue larger than any that can be made.
    pub open spec fn oversized(self) -> bool {
        match self.channel_buffer_size {
            Some(n) => n > MAX_QUEUE_CAPACITY,
            None => false,
        }
    }
}

/// The detail of the error for a queue capacity that cannot be had.
pub open spec fn oversized_text() -> Seq<char> {
    "channel_buffer_size is too large"@
}

/// The value that follows `v` in a [`Sequence`].
pub open spec fn successor(v: u64) -> u64 {
    if v == u64::MAX {
        0
    } else {
        (v + 1) as u64
    }
}

/// Allocator of endpoint ids: each call of [`Sequence::next`] hands out the
/// current value and moves on to the next.
#[derive(Debug)]
pub struct Sequence {
    counter: u64,
}

impl Sequence {
    /// The value that the next call of [`Sequence::next`] returns.
    pub closed spec fn value(&self) -> u64 {
        self.counter
    }

    pub fn new() -> (s: Self)
        ensures
            s.value() == 0,
    {
        Sequence { counter: 0 }
    }

    pub fn next(&mut self) -> (id: u64)
        ensures
            id == old(self).value(),
            final(self).value() == successor(old(self).value()),
    {
        let id: u64 = self.counter;
        self.counter = if id == u64::MAX {
            0
        } else {
            id + 1
        };
        id
    }
}

/// The broker: the id allocator and the directory.
#[derive(Debug)]
pub struct Hub {
    pub endpoint_id_seq: Sequence,
    pub directory: Directory,
}

impl Hub {
    pub fn new() -> (h: Self)
        ensures
            h.directory.wf(),
            h.endpoint_id_seq.value() == 0,
            h.directory@.channels == Map::<Seq<char>, Set<EndpointId>>::empty(),
            h.directory@.endpoints == Map::<EndpointId, EndpointView>::empty(),
    {
        Hub { endpoint_id_seq: Sequence::new(), directory: Directory::new() }
    }

    /// Mints an endpoint: takes the next id, makes the endpoint with the
    /// permissions and the queue that the settings ask for, and registers it.
    /// Returns the id and the receiving half of the endpoint's queue.
    ///
    /// The id is used up whether or not the endpoint comes to be. It does
    /// not if the settings ask for a queue that is too large, or if the id
    /// is taken in the directory.
    pub fn create_endpoint(&mut self, endpoint_factory_settings: &EndpointFactorySettings) -> (r:
        Result<(EndpointId, OutboundReceiver), AppError>)
        requires
            old(self).directory.wf(),
        ensures
            final(self).directory.wf(),
            final(self).endpoint_id_seq.value() == successor(old(self).endpoint_id_seq.value()),
            match r {
                Ok((id, rx)) => {
                    &&& id == old(self).endpoint_id_seq.value()
                    &&& !endpoint_factory_settings.oversized()
                    &&& !old(self).directory@.endpoints.contains_key(id)
                    &&& final(self).directory@ == old(self).directory@.with_endpoint(
                        endpoint_factory_settings.fresh_endpoint(id),
                    )
                    &&& rx is Bounded <==> endpoint_factory_settings.queue_capacity() is Some
                },
                Err(e) => {
                    &&& final(self).directory@ == old(self).directory@
                    &&& if endpoint_factory_settings.oversized() {
                        e@ == ErrorView::InvalidConfig(oversized_text())
                    } else {
                        &&& old(self).directory@.endpoints.contains_key(
                            old(self).endpoint_id_seq.value(),
                        )
                        &&& e@ == ErrorView::Generic(
                            duplicate_endpoint_text(old(self).endpoint_id_seq.value()),
                        )
                    }
                },
            },
    {
        let allowed_commands = endpoint_factory_settings.default_endpoint_permissions;
        let endpoint_id: EndpointId = self.endpoint_id_seq.next();
        let buffer_size: usize = match endpoint_factory_settings.channel_buffer_size {
            Some(n) => n,
            None => 0,
        };
        if buffer_size > MAX_QUEUE_CAPACITY {
            return Err(
                AppError::InvalidConfig(String::from_str("channel_buffer_size is too large")),
            );
        }
        if buffer_size > 0 {
            let (endpoint, rx) = Endpoint::new_bounded(endpoint_id, allowed_commands, buffer_size);
            match self.directory.register_endpoint(endpoint) {
                Ok(()) => Ok((endpoint_id, OutboundReceiver::Bounded(rx))),
                Err(e) => Err(e),
            }
        } else {
            let (endpoint, rx) = Endpoint::new(endpoint_id, allowed_commands);
            match self.directory.register_endpoint(endpoint) {
                Ok(()) => Ok((endpoint_id, OutboundReceiver::Unbounded(rx))),
                Err(e) => Err(e),
            }
        }
    }
}

} // verus!
