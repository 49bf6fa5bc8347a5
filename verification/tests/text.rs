use tslm::error::AppError;
use tslm::server::Builder;
use tslm::settings::{ListenerConfig, Permission, PermissionSet, Settings};
use tslm::text::{decimal, decimal_usize};

fn listener() -> ListenerConfig {
    ListenerConfig {
        ip: String::from("127.0.0.1"),
        port: 8080,
        default_endpoint_permissions: None,
        auth_tokens: None,
        max_message_size: None,
        max_frame_size: None,
        max_connections: None,
        channel_buffer_size: None,
        rate_limit_per_second: None,
    }
}

#[test]
fn decimal_writes_numbers_without_leading_zeros() {
    assert_eq!(decimal(0), "0");
    assert_eq!(decimal(7), "7");
    assert_eq!(decimal(10), "10");
    assert_eq!(decimal(1234567890), "1234567890");
    assert_eq!(decimal(u64::MAX), "18446744073709551615");
    assert_eq!(decimal_usize(4096), "4096");
}

#[test]
fn every_error_has_its_text() {
    let detail = || String::from("d");
    assert_eq!(AppError::Io(detail()).message(), "I/O error: d");
    assert_eq!(AppError::WebSocket(detail()).message(), "WebSocket error: d");
    assert_eq!(AppError::ChannelSend(detail()).message(), "Channel send error: d");
    assert_eq!(AppError::LockPoisoned(detail()).message(), "Lock poisoned: d");
    assert_eq!(AppError::ChannelNotFound(detail()).message(), "Channel not found: d");
    assert_eq!(AppError::EndpointNotFound(detail()).message(), "Endpoint not found: d");
    assert_eq!(AppError::PermissionDenied(detail()).message(), "Permission denied: d");
    assert_eq!(AppError::InvalidConfig(detail()).message(), "Invalid configuration: d");
    assert_eq!(
        AppError::MessageTooLarge { size: 1048577, max: 1048576 }.message(),
        "Message too large: 1048577 bytes (max: 1048576 bytes)"
    );
    assert_eq!(AppError::RateLimitExceeded(detail()).message(), "Rate limit exceeded: d");
    assert_eq!(
        AppError::ConnectionLimitExceeded(detail()).message(),
        "Connection limit exceeded: d"
    );
    assert_eq!(AppError::Serialization(detail()).message(), "Serialization error: d");
    assert_eq!(AppError::Generic(detail()).message(), "d");
    assert_eq!(AppError::msg(String::from("m")).message(), "m");
    assert_eq!(AppError::msg_str("n").message(), "n");
}

#[test]
fn permission_names() {
    assert_eq!(Permission::Subscribe.tag(), "Subscribe");
    assert_eq!(Permission::CreateChannel.tag(), "CreateChannel");
    assert_eq!(Permission::NotifyChannel.tag(), "NotifyChannel");
}

#[test]
fn listener_limits_default_to_64_kib_and_16_mib() {
    let mut config = listener();
    assert_eq!(config.get_max_message_size(), 64 * 1024);
    assert_eq!(config.get_max_frame_size(), 16 * 1024 * 1024);
    config.max_message_size = Some(10);
    config.max_frame_size = Some(20);
    assert_eq!(config.get_max_message_size(), 10);
    assert_eq!(config.get_max_frame_size(), 20);
}

#[test]
fn plan_takes_over_what_is_configured() {
    let mut permissions = PermissionSet::new();
    permissions.insert(Permission::Subscribe);
    let mut public = listener();
    public.default_endpoint_permissions = Some(permissions);
    public.auth_tokens = Some(vec![String::from("t")]);
    public.max_connections = Some(100);
    public.channel_buffer_size = Some(16);
    public.rate_limit_per_second = Some(5);
    public.max_message_size = Some(1000);
    let mut private = listener();
    private.port = 8081;

    let plans = Builder::plan(Settings {
        listener: vec![(String::from("public"), public), (String::from("private"), private)],
    });

    assert_eq!(plans.len(), 2);
    assert_eq!(plans[0].name, "public");
    assert_eq!(plans[0].ip, "127.0.0.1");
    assert_eq!(plans[0].port, 8080);
    assert!(plans[0].factory.default_endpoint_permissions.contains(Permission::Subscribe));
    assert!(!plans[0].factory.default_endpoint_permissions.contains(Permission::CreateChannel));
    assert_eq!(plans[0].factory.channel_buffer_size, Some(16));
    assert_eq!(plans[0].wire.auth_tokens, Some(vec![String::from("t")]));
    assert_eq!(plans[0].wire.max_message_size, 1000);
    assert_eq!(plans[0].wire.max_frame_size, 16 * 1024 * 1024);
    assert_eq!(plans[0].wire.max_connections, Some(100));
    assert_eq!(plans[0].wire.rate_limit_per_second, Some(5));

    assert_eq!(plans[1].name, "private");
    assert_eq!(plans[1].port, 8081);
    assert!(!plans[1].factory.default_endpoint_permissions.contains(Permission::Subscribe));
    assert_eq!(plans[1].factory.channel_buffer_size, None);
    assert_eq!(plans[1].wire.auth_tokens, None);
    assert_eq!(plans[1].wire.max_message_size, 64 * 1024);
    assert_eq!(plans[1].wire.max_connections, None);
    assert_eq!(plans[1].wire.rate_limit_per_second, None);
}

#[test]
fn plan_of_no_listeners_is_empty() {
    assert!(Builder::plan(Settings { listener: Vec::new() }).is_empty());
}
