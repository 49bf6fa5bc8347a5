use tslm::directory::Directory;
use tslm::endpoint::Endpoint;
use tslm::error::AppError;
use tslm::message::{ChannelMessage, ClientCommand};
use tslm::settings::PermissionSet;

#[test]
fn test_create_channel() {
    let mut directory = Directory::new();
    let channel_id = String::from("test_channel");

    let result = directory.create_channel(channel_id.clone());
    assert!(result.is_ok());

    // Channel should now exist
    assert!(directory.find_channel(&channel_id).is_some());
}

#[test]
fn test_create_duplicate_channel() {
    let mut directory = Directory::new();
    let channel_id = String::from("test_channel");

    directory.create_channel(channel_id.clone()).unwrap();
    let result = directory.create_channel(channel_id);

    assert!(result.is_err());
}

#[test]
fn test_register_endpoint() {
    let mut directory = Directory::new();
    let permissions = PermissionSet::new();

    let (endpoint, _rx) = Endpoint::new(1, permissions);
    let result = directory.register_endpoint(endpoint);

    assert!(result.is_ok());
    assert!(directory.find_endpoint(&1).is_some());
}

#[test]
fn test_subscribe_to_nonexistent_channel() {
    let mut directory = Directory::new();
    let permissions = PermissionSet::new();

    let (endpoint, _rx) = Endpoint::new(1, permissions);
    let id = endpoint.id();
    directory.register_endpoint(endpoint).unwrap();

    let result = directory.subscribe_to_channel(&String::from("nonexistent"), id);
    assert!(result.is_err());
}

#[test]
fn test_unregister_endpoint() {
    let mut directory = Directory::new();
    let permissions = PermissionSet::new();

    let (endpoint, _rx) = Endpoint::new(1, permissions);
    directory.register_endpoint(endpoint).unwrap();

    assert!(directory.find_endpoint(&1).is_some());
    directory.unregister_endpoint(&1).unwrap();
    assert!(directory.find_endpoint(&1).is_none());
}

#[test]
fn duplicate_channel_error_names_the_channel_and_keeps_subscribers() {
    let mut directory = Directory::new();
    directory.create_channel(String::from("c")).unwrap();
    directory.subscribe_to_channel(&String::from("c"), 3).unwrap();

    let error = directory.create_channel(String::from("c")).unwrap_err();

    assert!(matches!(error, AppError::Generic(_)));
    assert_eq!(error.message(), "Channel 'c' is already registered");
    let channel = directory.find_channel(&String::from("c")).unwrap();
    assert_eq!(channel.subscriber_ids(), vec![3]);
}

#[test]
fn duplicate_endpoint_error_names_the_id_and_keeps_the_first() {
    let mut directory = Directory::new();
    let (first, mut first_rx) = Endpoint::new(12, PermissionSet::new());
    let (second, mut second_rx) = Endpoint::new(12, PermissionSet::new());
    directory.register_endpoint(first).unwrap();

    let error = directory.register_endpoint(second).unwrap_err();

    assert!(matches!(error, AppError::Generic(_)));
    assert_eq!(error.message(), "Endpoint 12 already registered");
    directory.send_to(12, ClientCommand::Text(String::from("x"))).unwrap();
    assert!(first_rx.try_recv().is_ok());
    assert!(second_rx.try_recv().is_err());
}

#[test]
fn unknown_channel_error_names_the_channel() {
    let mut directory = Directory::new();
    let error = directory.subscribe_to_channel(&String::from("ghost"), 1).unwrap_err();
    assert!(matches!(error, AppError::ChannelNotFound(_)));
    assert_eq!(error.message(), "Channel not found: ghost");
    assert!(directory.find_channel(&String::from("ghost")).is_none());

    let error = directory
        .publish(&String::from("ghost"), ChannelMessage::Text(String::from("m")))
        .unwrap_err();
    assert_eq!(error.message(), "Channel not found: ghost");
}

#[test]
fn unregistering_an_absent_endpoint_is_no_error() {
    let mut directory = Directory::new();
    assert!(directory.unregister_endpoint(&7).is_ok());
    assert!(directory.unregister_endpoint(&7).is_ok());
    assert!(directory.find_endpoint(&7).is_none());
}

#[test]
fn unregistered_endpoint_stays_subscribed_until_the_next_publish() {
    let mut directory = Directory::new();
    let name = String::from("c");
    directory.create_channel(name.clone()).unwrap();
    let (endpoint, _rx) = Endpoint::new(1, PermissionSet::new());
    directory.register_endpoint(endpoint).unwrap();
    directory.subscribe_to_channel(&name, 1).unwrap();

    directory.unregister_endpoint(&1).unwrap();
    assert_eq!(directory.find_channel(&name).unwrap().subscriber_ids(), vec![1]);

    directory.publish(&name, ChannelMessage::Text(String::from("m"))).unwrap();
    assert!(directory.find_channel(&name).unwrap().subscriber_ids().is_empty());
}

#[test]
fn send_to_an_absent_endpoint_names_the_id() {
    let mut directory = Directory::new();
    let error = directory.send_to(305, ClientCommand::Text(String::from("x"))).unwrap_err();
    assert!(matches!(error, AppError::EndpointNotFound(_)));
    assert_eq!(error.message(), "Endpoint not found: 305");
}

#[test]
fn directory_publish_fans_out_on_the_named_channel_only() {
    let mut directory = Directory::new();
    directory.create_channel(String::from("a")).unwrap();
    directory.create_channel(String::from("b")).unwrap();
    let (one, mut one_rx) = Endpoint::new(1, PermissionSet::new());
    let (two, mut two_rx) = Endpoint::new(2, PermissionSet::new());
    directory.register_endpoint(one).unwrap();
    directory.register_endpoint(two).unwrap();
    directory.subscribe_to_channel(&String::from("a"), 1).unwrap();
    directory.subscribe_to_channel(&String::from("b"), 2).unwrap();

    directory.publish(&String::from("a"), ChannelMessage::Text(String::from("m"))).unwrap();

    assert!(one_rx.try_recv().is_ok());
    assert!(two_rx.try_recv().is_err());
    assert_eq!(directory.find_channel(&String::from("b")).unwrap().subscriber_ids(), vec![2]);
}
