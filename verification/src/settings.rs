//! Listener configuration and endpoint permissions.

use vstd::prelude::*;

verus! {

/// What an endpoint may be allowed to do.
#[derive(Debug, Clone, Copy, PartialEq, Eq, Hash, Structural)]
pub enum Permission {
    Subscribe,
    CreateChannel,
    NotifyChannel,
}

impl Permission {
    /// The permission's name as it appears in configuration and in errors.
    pub open spec fn tag_text(self) -> Seq<char> {
        match self {
            Permission::Subscribe => "Subscribe"@,
            Permission::CreateChannel => "CreateChannel"@,
            Permission::NotifyChannel => "NotifyChannel"@,
        }
    }

    /// The permission's name as it appears in configuration and in errors.
    pub fn tag(&self) -> (t: &'static str)
        ensures
            t@ == self.tag_text(),
    {
        match self {
            Permission::Subscribe => "Subscribe",
            Permission::CreateChannel => "CreateChannel",
            Permission::NotifyChannel => "NotifyChannel",
        }
    }
}

/// A set of permissions, fixed for an endpoint when it is created.
#[derive(Debug, Clone, Copy)]
pub struct PermissionSet {
    subscribe: bool,
    create_channel: bool,
    notify_channel: bool,
}

impl View for PermissionSet {
    type V = Set<Permission>;

    closed spec fn view(&self) -> Set<Permission> {
        Set::new(
            |p: Permission|
                match p {
                    Permission::Subscribe => self.subscribe,
                    Permission::CreateChannel => self.create_channel,
                    Permission::NotifyChannel => self.notify_channel,
                },
        )
    }
}

impl PermissionSet {
    /// The empty set.
    pub fn new() -> (s: Self)
        ensures
            s@ == Set::<Permission>::empty(),
    {
        let s = PermissionSet { subscribe: false, create_channel: false, notify_channel: false };
        assert(s@ =~= Set::<Permission>::empty());
        s
    }

    /// Adds `p`; returns whether it was absent.
    pub fn insert(&mut self, p: Permission) -> (fresh: bool)
        ensures
            final(self)@ == old(self)@.insert(p),
            fresh == !old(self)@.contains(p),
    {
        let fresh = !self.contains(p);
        match p {
            Permission::Subscribe => {
                self.subscribe = true;
            },
            Permission::CreateChannel => {
                self.create_channel = true;
            },
            Permission::NotifyChannel => {
                self.notify_channel = true;
            },
        }
        assert(self@ =~= old(self)@.insert(p));
        fresh
    }

    /// Whether `p` is in the set.
    pub fn contains(&self, p: Permission) -> (b: bool)
        ensures
            b == self@.contains(p),
    {
        match p {
            Permission::Subscribe => self.subscribe,
            Permission::CreateChannel => self.create_channel,
            Permission::NotifyChannel => self.notify_channel,
        }
    }
}

impl Default for PermissionSet {
    fn default() -> (s: Self)
        ensures
            s@ == Set::<Permission>::empty(),
    {
        PermissionSet::new()
    }
}

/// One listener of the gateway, as configured.
#[derive(Debug)]
pub struct ListenerConfig {
    /// The address to bind, as an IP literal.
    pub ip: String,
    pub port: u16,
    pub default_endpoint_permissions: Option<PermissionSet>,
    /// Optional authentication tokens. If specified, clients must provide one of these tokens
    /// in the Sec-WebSocket-Protocol header to connect.
    pub auth_tokens: Option<Vec<String>>,
    /// Maximum message size in bytes (default: 64KB)
    pub max_message_size: Option<usize>,
    /// Maximum frame size in bytes (default: 16MB)
    pub max_frame_size: Option<usize>,
    /// Maximum number of concurrent connections (default: unlimited)
    pub max_connections: Option<usize>,
    /// Channel buffer size for backpressure control (default: unbounded, 0 = unbounded)
    pub channel_buffer_size: Option<usize>,
    /// Rate limit: messages per second per connection (default: no limit)
    pub rate_limit_per_second: Option<u32>,
}

/// Message size limit of a listener that configures none: 64 KiB.
pub const DEFAULT_MAX_MESSAGE_SIZE: usize = 65536;

/// Frame size limit of a listener that configures none: 16 MiB.
pub const DEFAULT_MAX_FRAME_SIZE: usize = 16777216;

impl ListenerConfig {
    pub fn get_max_message_size(&self) -> (n: usize)
        ensures
            n == match self.max_message_size {
                Some(m) => m,
                None => DEFAULT_MAX_MESSAGE_SIZE,
            },
    {
        match self.max_message_size {
            Some(m) => m,
            None => DEFAULT_MAX_MESSAGE_SIZE,
        }
    }

    pub fn get_max_frame_size(&self) -> (n: usize)
        ensures
            n == match self.max_frame_size {
                Some(m) => m,
                None => DEFAULT_MAX_FRAME_SIZE,
            },
    {
        match self.max_frame_size {
            Some(m) => m,
            None => DEFAULT_MAX_FRAME_SIZE,
        }
    }
}

/// The gateway's configuration: its listeners, each under its name.
#[derive(Debug)]
pub struct Settings {
    pub listener: Vec<(String, ListenerConfig)>,
}

} // verus!
