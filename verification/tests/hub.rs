use tslm::error::AppError;
use tslm::hub::{EndpointFactorySettings, Hub, Sequence};
use tslm::queue::{OutboundReceiver, MAX_QUEUE_CAPACITY};
use tslm::settings::{Permission, PermissionSet};
use tslm::endpoint::Endpoint;

#[test]
fn sequence_counts_up_from_zero() {
    let mut sequence = Sequence::new();
    assert_eq!(sequence.next(), 0);
    assert_eq!(sequence.next(), 1);
    assert_eq!(sequence.next(), 2);
}

#[test]
fn hub_hands_out_ids_in_sequence_and_registers_each_endpoint() {
    let mut hub = Hub::new();
    let settings = EndpointFactorySettings::default();
    let (first, _first_rx) = hub.create_endpoint(&settings).unwrap();
    let (second, _second_rx) = hub.create_endpoint(&settings).unwrap();
    assert_eq!(first, 0);
    assert_eq!(second, 1);
    assert!(hub.directory.find_endpoint(&0).is_some());
    assert!(hub.directory.find_endpoint(&1).is_some());
    assert!(hub.directory.find_endpoint(&2).is_none());
}

#[test]
fn endpoint_gets_the_permissions_of_the_settings() {
    let mut hub = Hub::new();
    let mut permissions = PermissionSet::new();
    assert!(permissions.insert(Permission::NotifyChannel));
    assert!(!permissions.insert(Permission::NotifyChannel));
    let settings = EndpointFactorySettings {
        default_endpoint_permissions: permissions,
        channel_buffer_size: None,
    };
    let (id, _rx) = hub.create_endpoint(&settings).unwrap();
    let endpoint = hub.directory.find_endpoint(&id).unwrap();
    assert!(endpoint.allows(Permission::NotifyChannel));
    assert!(!endpoint.allows(Permission::Subscribe));
    assert!(!endpoint.allows(Permission::CreateChannel));
}

#[test]
fn buffer_size_chooses_the_queue_flavour() {
    let mut hub = Hub::new();
    let mut settings = EndpointFactorySettings::default();

    let (plain, rx) = hub.create_endpoint(&settings).unwrap();
    assert!(matches!(rx, OutboundReceiver::Unbounded(_)));
    assert_eq!(hub.directory.find_endpoint(&plain).unwrap().queue_capacity(), None);

    settings.channel_buffer_size = Some(0);
    let (zero, rx) = hub.create_endpoint(&settings).unwrap();
    assert!(matches!(rx, OutboundReceiver::Unbounded(_)));
    assert_eq!(hub.directory.find_endpoint(&zero).unwrap().queue_capacity(), None);

    settings.channel_buffer_size = Some(8);
    let (bounded, rx) = hub.create_endpoint(&settings).unwrap();
    assert!(matches!(rx, OutboundReceiver::Bounded(_)));
    assert_eq!(hub.directory.find_endpoint(&bounded).unwrap().queue_capacity(), Some(8));
}

#[test]
fn oversized_buffer_is_an_invalid_configuration() {
    let mut hub = Hub::new();
    let settings = EndpointFactorySettings {
        default_endpoint_permissions: PermissionSet::new(),
        channel_buffer_size: Some(MAX_QUEUE_CAPACITY + 1),
    };
    let error = hub.create_endpoint(&settings).unwrap_err();
    assert!(matches!(error, AppError::InvalidConfig(_)));
    assert_eq!(error.message(), "Invalid configuration: channel_buffer_size is too large");
    assert!(hub.directory.find_endpoint(&0).is_none());
}

#[test]
fn largest_buffer_is_accepted() {
    let mut hub = Hub::new();
    let settings = EndpointFactorySettings {
        default_endpoint_permissions: PermissionSet::new(),
        channel_buffer_size: Some(MAX_QUEUE_CAPACITY),
    };
    let (id, _rx) = hub.create_endpoint(&settings).unwrap();
    assert_eq!(
        hub.directory.find_endpoint(&id).unwrap().queue_capacity(),
        Some(MAX_QUEUE_CAPACITY)
    );
}

#[test]
fn taken_id_aborts_creation_and_is_used_up() {
    let mut hub = Hub::new();
    let (squatter, _squatter_rx) = Endpoint::new(0, PermissionSet::new());
    hub.directory.register_endpoint(squatter).unwrap();

    let error = hub.create_endpoint(&EndpointFactorySettings::default()).unwrap_err();
    assert!(matches!(error, AppError::Generic(_)));
    assert_eq!(error.message(), "Endpoint 0 already registered");

    let (id, _rx) = hub.create_endpoint(&EndpointFactorySettings::default()).unwrap();
    assert_eq!(id, 1);
}
