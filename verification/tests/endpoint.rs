use tslm::directory::Directory;
use tslm::endpoint::Endpoint;
use tslm::error::AppError;
use tslm::hub::{EndpointFactorySettings, Hub};
use tslm::message::{ChannelMessage, ClientCommand, TerminalStreamCommand};
use tslm::queue::OutboundReceiver;
use tslm::settings::{Permission, PermissionSet};

fn permissions(list: &[Permission]) -> PermissionSet {
    let mut set = PermissionSet::new();
    for p in list {
        set.insert(*p);
    }
    set
}

fn private() -> EndpointFactorySettings {
    EndpointFactorySettings {
        default_endpoint_permissions: permissions(&[
            Permission::CreateChannel,
            Permission::NotifyChannel,
        ]),
        channel_buffer_size: None,
    }
}

fn public() -> EndpointFactorySettings {
    EndpointFactorySettings {
        default_endpoint_permissions: permissions(&[Permission::Subscribe]),
        channel_buffer_size: None,
    }
}

fn next(rx: &mut OutboundReceiver) -> Option<ClientCommand> {
    match rx {
        OutboundReceiver::Unbounded(rx) => rx.try_recv().ok(),
        OutboundReceiver::Bounded(rx) => rx.try_recv().ok(),
    }
}

fn create(name: &str) -> TerminalStreamCommand {
    TerminalStreamCommand::CreateChannel(String::from(name))
}

fn subscribe(name: &str) -> TerminalStreamCommand {
    TerminalStreamCommand::Subscribe(String::from(name))
}

fn notify(name: &str, text: &str) -> TerminalStreamCommand {
    TerminalStreamCommand::NotifyChannel(
        String::from(name),
        ChannelMessage::Text(String::from(text)),
    )
}

#[test]
fn create_subscribe_publish_delivers_the_message() {
    let mut hub = Hub::new();
    let (publisher, mut publisher_rx) = hub.create_endpoint(&private()).unwrap();
    let (subscriber, mut subscriber_rx) = hub.create_endpoint(&public()).unwrap();

    assert!(Endpoint::on_command(&mut hub.directory, publisher, create("c")).is_ok());
    assert!(matches!(next(&mut publisher_rx), Some(ClientCommand::Success(_))));

    assert!(Endpoint::on_command(&mut hub.directory, subscriber, subscribe("c")).is_ok());
    assert!(matches!(next(&mut subscriber_rx), Some(ClientCommand::Success(_))));

    assert!(Endpoint::on_command(&mut hub.directory, publisher, notify("c", "hi")).is_ok());
    match next(&mut subscriber_rx) {
        Some(ClientCommand::ChannelMessage(name, ChannelMessage::Text(text))) => {
            assert_eq!(name, "c");
            assert_eq!(text, "hi");
        }
        other => panic!("expected the published message, got {:?}", other),
    }
    assert!(next(&mut subscriber_rx).is_none());
    assert!(matches!(next(&mut publisher_rx), Some(ClientCommand::Success(_))));
    assert!(next(&mut publisher_rx).is_none());
}

#[test]
fn create_without_permission_is_denied_and_makes_no_channel() {
    let mut hub = Hub::new();
    let (id, mut rx) = hub.create_endpoint(&public()).unwrap();

    let result = Endpoint::on_command(&mut hub.directory, id, create("x"));

    assert!(matches!(result, Err(AppError::PermissionDenied(_))));
    match next(&mut rx) {
        Some(ClientCommand::Error(text)) => assert_eq!(text, "Permission denied: CreateChannel"),
        other => panic!("expected an error event, got {:?}", other),
    }
    assert!(next(&mut rx).is_none());
    assert!(hub.directory.find_channel(&String::from("x")).is_none());
}

#[test]
fn each_command_is_denied_under_its_own_permission_name() {
    let mut hub = Hub::new();
    let nothing = EndpointFactorySettings::default();
    let (id, mut rx) = hub.create_endpoint(&nothing).unwrap();
    hub.directory.create_channel(String::from("c")).unwrap();

    for (command, text) in [
        (create("d"), "Permission denied: CreateChannel"),
        (subscribe("c"), "Permission denied: Subscribe"),
        (notify("c", "m"), "Permission denied: NotifyChannel"),
    ] {
        let error = Endpoint::on_command(&mut hub.directory, id, command).unwrap_err();
        assert_eq!(error.message(), text);
        match next(&mut rx) {
            Some(ClientCommand::Error(got)) => assert_eq!(got, text),
            other => panic!("expected an error event, got {:?}", other),
        }
        assert!(next(&mut rx).is_none());
    }
    assert!(hub.directory.find_channel(&String::from("d")).is_none());
    assert!(hub.directory.find_channel(&String::from("c")).unwrap().subscriber_ids().is_empty());
}

#[test]
fn subscribe_to_a_missing_channel_reports_channel_not_found() {
    let mut hub = Hub::new();
    let (id, mut rx) = hub.create_endpoint(&public()).unwrap();

    let result = Endpoint::on_command(&mut hub.directory, id, subscribe("ghost"));

    assert!(matches!(result, Err(AppError::ChannelNotFound(_))));
    match next(&mut rx) {
        Some(ClientCommand::Error(text)) => assert_eq!(text, "Channel not found: ghost"),
        other => panic!("expected an error event, got {:?}", other),
    }
    assert!(next(&mut rx).is_none());
    assert!(hub.directory.find_channel(&String::from("ghost")).is_none());
}

#[test]
fn publish_to_a_missing_channel_reports_channel_not_found() {
    let mut hub = Hub::new();
    let (id, mut rx) = hub.create_endpoint(&private()).unwrap();

    let result = Endpoint::on_command(&mut hub.directory, id, notify("ghost", "m"));

    assert!(matches!(result, Err(AppError::ChannelNotFound(_))));
    match next(&mut rx) {
        Some(ClientCommand::Error(text)) => assert_eq!(text, "Channel not found: ghost"),
        other => panic!("expected an error event, got {:?}", other),
    }
}

#[test]
fn creating_a_channel_twice_reports_an_error_and_keeps_the_first() {
    let mut hub = Hub::new();
    let (publisher, mut publisher_rx) = hub.create_endpoint(&private()).unwrap();
    let (subscriber, _subscriber_rx) = hub.create_endpoint(&public()).unwrap();
    Endpoint::on_command(&mut hub.directory, publisher, create("c")).unwrap();
    Endpoint::on_command(&mut hub.directory, subscriber, subscribe("c")).unwrap();
    assert!(matches!(next(&mut publisher_rx), Some(ClientCommand::Success(_))));

    let result = Endpoint::on_command(&mut hub.directory, publisher, create("c"));

    assert!(matches!(result, Err(AppError::Generic(_))));
    match next(&mut publisher_rx) {
        Some(ClientCommand::Error(text)) => assert_eq!(text, "Channel 'c' is already registered"),
        other => panic!("expected an error event, got {:?}", other),
    }
    let channel = hub.directory.find_channel(&String::from("c")).unwrap();
    assert_eq!(channel.subscriber_ids(), vec![subscriber]);
}

#[test]
fn three_subscribers_each_get_the_message_once() {
    let mut hub = Hub::new();
    let (publisher, _publisher_rx) = hub.create_endpoint(&private()).unwrap();
    Endpoint::on_command(&mut hub.directory, publisher, create("c")).unwrap();
    let mut receivers = Vec::new();
    for _ in 0..3 {
        let (id, mut rx) = hub.create_endpoint(&public()).unwrap();
        Endpoint::on_command(&mut hub.directory, id, subscribe("c")).unwrap();
        assert!(matches!(next(&mut rx), Some(ClientCommand::Success(_))));
        receivers.push(rx);
    }

    Endpoint::on_command(&mut hub.directory, publisher, notify("c", "m")).unwrap();

    for rx in receivers.iter_mut() {
        match next(rx) {
            Some(ClientCommand::ChannelMessage(name, ChannelMessage::Text(text))) => {
                assert_eq!(name, "c");
                assert_eq!(text, "m");
            }
            other => panic!("expected the published message, got {:?}", other),
        }
        assert!(next(rx).is_none());
    }
}

#[test]
fn a_dropped_subscriber_is_pruned_and_the_others_still_served() {
    let mut hub = Hub::new();
    let (publisher, _publisher_rx) = hub.create_endpoint(&private()).unwrap();
    Endpoint::on_command(&mut hub.directory, publisher, create("c")).unwrap();
    let (gone, gone_rx) = hub.create_endpoint(&public()).unwrap();
    let (stays, mut stays_rx) = hub.create_endpoint(&public()).unwrap();
    Endpoint::on_command(&mut hub.directory, gone, subscribe("c")).unwrap();
    Endpoint::on_command(&mut hub.directory, stays, subscribe("c")).unwrap();
    assert!(matches!(next(&mut stays_rx), Some(ClientCommand::Success(_))));

    drop(gone_rx);
    Endpoint::unregister(&mut hub.directory, gone).unwrap();
    let result = Endpoint::on_command(&mut hub.directory, publisher, notify("c", "m"));

    assert!(result.is_ok());
    assert!(matches!(next(&mut stays_rx), Some(ClientCommand::ChannelMessage(_, _))));
    let channel = hub.directory.find_channel(&String::from("c")).unwrap();
    assert_eq!(channel.subscriber_ids(), vec![stays]);
}

#[test]
fn two_subscribe_commands_leave_one_subscription() {
    let mut hub = Hub::new();
    hub.directory.create_channel(String::from("c")).unwrap();
    let (id, mut rx) = hub.create_endpoint(&public()).unwrap();

    assert!(Endpoint::on_command(&mut hub.directory, id, subscribe("c")).is_ok());
    assert!(Endpoint::on_command(&mut hub.directory, id, subscribe("c")).is_ok());

    assert_eq!(hub.directory.find_channel(&String::from("c")).unwrap().subscriber_ids(), vec![id]);
    assert!(matches!(next(&mut rx), Some(ClientCommand::Success(_))));
    assert!(matches!(next(&mut rx), Some(ClientCommand::Success(_))));
    assert!(next(&mut rx).is_none());
}

#[test]
fn acknowledgement_names_the_command_and_the_channel() {
    let mut hub = Hub::new();
    let (id, mut rx) = hub.create_endpoint(&private()).unwrap();
    Endpoint::on_command(&mut hub.directory, id, create("quotes")).unwrap();
    match next(&mut rx) {
        Some(ClientCommand::Success(text)) => {
            assert_eq!(text, "Command executed: CreateChannel quotes")
        }
        other => panic!("expected an acknowledgement, got {:?}", other),
    }
    match notify("quotes", "m").acknowledgement() {
        ClientCommand::Success(text) => assert_eq!(text, "Command executed: NotifyChannel quotes"),
        other => panic!("expected an acknowledgement, got {:?}", other),
    }
    match subscribe("quotes").acknowledgement() {
        ClientCommand::Success(text) => assert_eq!(text, "Command executed: Subscribe quotes"),
        other => panic!("expected an acknowledgement, got {:?}", other),
    }
}

#[test]
fn command_of_an_unregistered_endpoint_is_refused() {
    let mut directory = Directory::new();
    let error = Endpoint::on_command(&mut directory, 17, create("c")).unwrap_err();
    assert!(matches!(error, AppError::EndpointNotFound(_)));
    assert_eq!(error.message(), "Endpoint not found: 17");
    assert!(directory.find_channel(&String::from("c")).is_none());
}

#[test]
fn command_succeeds_even_if_the_reply_cannot_be_queued() {
    let mut hub = Hub::new();
    let (id, rx) = hub.create_endpoint(&private()).unwrap();
    drop(rx);
    assert!(Endpoint::on_command(&mut hub.directory, id, create("c")).is_ok());
    assert!(hub.directory.find_channel(&String::from("c")).is_some());
}

#[test]
fn publisher_subscribed_to_its_own_channel_gets_message_then_reply() {
    let mut hub = Hub::new();
    let everything = EndpointFactorySettings {
        default_endpoint_permissions: permissions(&[
            Permission::CreateChannel,
            Permission::NotifyChannel,
            Permission::Subscribe,
        ]),
        channel_buffer_size: None,
    };
    let (id, mut rx) = hub.create_endpoint(&everything).unwrap();
    Endpoint::on_command(&mut hub.directory, id, create("c")).unwrap();
    Endpoint::on_command(&mut hub.directory, id, subscribe("c")).unwrap();
    Endpoint::on_command(&mut hub.directory, id, notify("c", "m")).unwrap();

    assert!(matches!(next(&mut rx), Some(ClientCommand::Success(_))));
    assert!(matches!(next(&mut rx), Some(ClientCommand::Success(_))));
    assert!(matches!(next(&mut rx), Some(ClientCommand::ChannelMessage(_, _))));
    assert!(matches!(next(&mut rx), Some(ClientCommand::Success(_))));
    assert!(next(&mut rx).is_none());
}

#[test]
fn send_fails_once_the_receiver_is_gone() {
    let (mut endpoint, rx) = Endpoint::new(1, PermissionSet::new());
    assert!(endpoint.send(ClientCommand::Text(String::from("a"))).is_ok());
    drop(rx);
    let error = endpoint.send(ClientCommand::Text(String::from("b"))).unwrap_err();
    assert!(matches!(error, AppError::ChannelSend(_)));
    assert_eq!(error.message(), "Channel send error: channel closed");
}

#[test]
fn bounded_queue_refuses_what_does_not_fit() {
    let (mut endpoint, mut rx) = Endpoint::new_bounded(1, PermissionSet::new(), 2);
    assert_eq!(endpoint.queue_capacity(), Some(2));
    assert!(endpoint.send(ClientCommand::Text(String::from("a"))).is_ok());
    assert!(endpoint.send(ClientCommand::Text(String::from("b"))).is_ok());
    let error = endpoint.send(ClientCommand::Text(String::from("c"))).unwrap_err();
    assert_eq!(error.message(), "Channel send error: no available capacity");

    assert!(matches!(rx.try_recv(), Ok(ClientCommand::Text(t)) if t == "a"));
    assert!(endpoint.send(ClientCommand::Text(String::from("d"))).is_ok());
    assert!(matches!(rx.try_recv(), Ok(ClientCommand::Text(t)) if t == "b"));
    assert!(matches!(rx.try_recv(), Ok(ClientCommand::Text(t)) if t == "d"));
    assert!(rx.try_recv().is_err());
}

#[test]
fn unbounded_endpoint_has_no_capacity_and_keeps_its_permissions() {
    let (endpoint, _rx) = Endpoint::new(9, permissions(&[Permission::Subscribe]));
    assert_eq!(endpoint.id(), 9);
    assert_eq!(endpoint.queue_capacity(), None);
    assert!(endpoint.allows(Permission::Subscribe));
    assert!(!endpoint.allows(Permission::CreateChannel));
    assert!(!endpoint.allows(Permission::NotifyChannel));
    assert!(endpoint.permissions().contains(Permission::Subscribe));
}
