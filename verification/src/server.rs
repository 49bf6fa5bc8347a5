//! Start-up planning: what each configured listener is to be run with.

use vstd::prelude::*;
use crate::hub::EndpointFactorySettings;
use crate::settings::{
    ListenerConfig, Permission, PermissionSet, Settings, DEFAULT_MAX_FRAME_SIZE,
    DEFAULT_MAX_MESSAGE_SIZE,
};
use crate::websocket::WebSocketServerConfig;

verus! {

/// Everything one listener is started with.
#[derive(Debug)]
pub struct ListenerPlan {
    /// The listener's name in the configuration.
    pub name: String,
    /// The address to bind, as an IP literal.
    pub ip: String,
    pub port: u16,
    /// How the listener's endpoints are made.
    pub factory: EndpointFactorySettings,
    /// The listener's limits on the wire.
    pub wire: WebSocketServerConfig,
}

/// Whether `plan` is what the listener `config`, configured under `name`, is
/// to be run with: what is configured is taken over, and what is left out
/// gets its default (no permissions, 64 KiB messages, 16 MiB frames).
pub open spec fn planned(plan: ListenerPlan, name: String, config: ListenerConfig) -> bool {
    &&& plan.name == name
    &&& plan.ip == config.ip
    &&& plan.port == config.port
    &&& plan.factory.default_endpoint_permissions@ == match config.default_endpoint_permissions {
        Some(p) => p@,
        None => Set::<Permission>::empty(),
    }
    &&& plan.factory.channel_buffer_size == config.channel_buffer_size
    &&& plan.wire.auth_tokens == config.auth_tokens
    &&& plan.wire.max_message_size == match config.max_message_size {
        Some(m) => m,
        None => DEFAULT_MAX_MESSAGE_SIZE,
    }
    &&& plan.wire.max_frame_size == match config.max_frame_size {
        Some(m) => m,
        None => DEFAULT_MAX_FRAME_SIZE,
    }
    &&& plan.wire.max_connections == config.max_connections
    &&& plan.wire.rate_limit_per_second == config.rate_limit_per_second
}

/// Plans the start-up of the server from its settings.
pub struct Builder {}

impl Builder {
    /// Plans one listener.
    pub fn plan_listener(name: String, listener_config: ListenerConfig) -> (plan: ListenerPlan)
        ensures
            planned(plan, name, listener_config),
    {
        let max_message_size = listener_config.get_max_message_size();
        let max_frame_size = listener_config.get_max_frame_size();
        let default_permissions = match listener_config.default_endpoint_permissions {
            Some(p) => p,
            None => PermissionSet::new(),
        };
        let endpoint_factory_settings = EndpointFactorySettings {
            default_endpoint_permissions: default_permissions,
            channel_buffer_size: listener_config.channel_buffer_size,
        };
        let ws_config = WebSocketServerConfig {
            auth_tokens: listener_config.auth_tokens,
            max_message_size,
            max_frame_size,
            max_connections: listener_config.max_connections,
            rate_limit_per_second: listener_config.rate_limit_per_second,
        };
        ListenerPlan {
            name,
            ip: listener_config.ip,
            port: listener_config.port,
            factory: endpoint_factory_settings,
            wire: ws_config,
        }
    }

    /// Plans every listener of `settings`, in the order of the
    /// configuration.
    pub fn plan(settings: Settings) -> (plans: Vec<ListenerPlan>)
        ensures
            plans@.len() == settings.listener@.len(),
            forall|i: int|
                0 <= i < plans@.len() ==> planned(
                    #[trigger] plans@[i],
                    settings.listener@[i].0,
                    settings.listener@[i].1,
                ),
    {
        let mut rest: Vec<(String, ListenerConfig)> = settings.listener;
        let ghost all = rest@;
        let mut plans: Vec<ListenerPlan> = Vec::new();
        while rest.len() > 0
            invariant
                plans@.len() + rest@.len() == all.len(),
                rest@ == all.subrange(plans@.len() as int, all.len() as int),
                forall|i: int|
                    0 <= i < plans@.len() ==> planned(#[trigger] plans@[i], all[i].0, all[i].1),
            decreases rest@.len(),
        {
            let (name, listener_config) = rest.remove(0);
            let plan = Self::plan_listener(name, listener_config);
            plans.push(plan);
            assert(rest@ =~= all.subrange(plans@.len() as int, all.len() as int));
        }
        plans
    }
}

} // verus!
