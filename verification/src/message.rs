//! The values exchanged between clients and the broker.

use vstd::prelude::*;
use vstd::string::*;
use serde_json::Value;
use crate::settings::Permission;

verus! {

/// Unique identifier for a channel.
pub type ChannelId = String;

/// A structured JSON document, carried through the broker unread.
#[verifier::external_type_specification]
#[verifier::external_body]
pub struct ExValue(serde_json::Value);

/// Copies a JSON document with `<serde_json::Value as Clone>::clone`. The
/// copy is the same document: the broker treats documents as opaque values,
/// and cloning one changes nothing that can be observed of it.
#[verifier::external_body]
fn clone_document(v: &Value) -> (r: Value)
    ensures
        r == *v,
{
    v.clone()
}

/// Messages published to channels.
#[derive(Debug)]
pub enum ChannelMessage {
    /// Plain text message
    Text(String),
    /// JSON structured message
    Json(Value),
}

/// Commands sent from clients to the server.
#[derive(Debug)]
pub enum TerminalStreamCommand {
    /// Create a new channel with the given ID
    CreateChannel(ChannelId),
    /// Subscribe to receive messages from a channel
    Subscribe(ChannelId),
    /// Publish a message to a channel
    NotifyChannel(ChannelId, ChannelMessage),
}

/// Messages sent from the server to clients.
#[derive(Debug)]
pub enum ClientCommand {
    /// Text primitive, useful for debugging
    Text(String),
    /// An incoming message from the given channel
    ChannelMessage(ChannelId, ChannelMessage),
    /// Error response when a command fails
    Error(String),
    /// Success acknowledgment for a command
    Success(String),
}

/// A [`ChannelMessage`] with its text read as a character sequence.
pub enum MessageView {
    Text(Seq<char>),
    Json(Value),
}

/// A [`TerminalStreamCommand`] over character sequences.
pub enum CommandView {
    CreateChannel(Seq<char>),
    Subscribe(Seq<char>),
    NotifyChannel(Seq<char>, MessageView),
}

/// A [`ClientCommand`] over character sequences.
pub enum EventView {
    Text(Seq<char>),
    ChannelMessage(Seq<char>, MessageView),
    Error(Seq<char>),
    Success(Seq<char>),
}

impl View for ChannelMessage {
    type V = MessageView;

    open spec fn view(&self) -> MessageView {
        match self {
            ChannelMessage::Text(t) => MessageView::Text(t@),
            ChannelMessage::Json(v) => MessageView::Json(*v),
        }
    }
}

impl View for TerminalStreamCommand {
    type V = CommandView;

    open spec fn view(&self) -> CommandView {
        match self {
            TerminalStreamCommand::CreateChannel(c) => CommandView::CreateChannel(c@),
            TerminalStreamCommand::Subscribe(c) => CommandView::Subscribe(c@),
            TerminalStreamCommand::NotifyChannel(c, m) => CommandView::NotifyChannel(c@, m@),
        }
    }
}

impl View for ClientCommand {
    type V = EventView;

    open spec fn view(&self) -> EventView {
        match self {
            ClientCommand::Text(t) => EventView::Text(t@),
            ClientCommand::ChannelMessage(c, m) => EventView::ChannelMessage(c@, m@),
            ClientCommand::Error(t) => EventView::Error(t@),
            ClientCommand::Success(t) => EventView::Success(t@),
        }
    }
}

impl CommandView {
    /// The channel that the command is about.
    pub open spec fn channel(self) -> Seq<char> {
        match self {
            CommandView::CreateChannel(c) => c,
            CommandView::Subscribe(c) => c,
            CommandView::NotifyChannel(c, _) => c,
        }
    }

    /// The name of the command's variant.
    pub open spec fn tag(self) -> Seq<char> {
        match self {
            CommandView::CreateChannel(_) => "CreateChannel"@,
            CommandView::Subscribe(_) => "Subscribe"@,
            CommandView::NotifyChannel(_, _) => "NotifyChannel"@,
        }
    }

    /// The permission that an endpoint needs for the command.
    pub open spec fn required_permission(self) -> Permission {
        match self {
            CommandView::CreateChannel(_) => Permission::CreateChannel,
            CommandView::Subscribe(_) => Permission::Subscribe,
            CommandView::NotifyChannel(_, _) => Permission::NotifyChannel,
        }
    }

    /// The text of the acknowledgement sent when the command succeeded: the
    /// variant's name and the channel.
    pub open spec fn ack_text(self) -> Seq<char> {
        "Command executed: "@ + self.tag() + " "@ + self.channel()
    }
}

impl Clone for ChannelMessage {
    fn clone(&self) -> (r: Self)
        ensures
            r == *self,
    {
        match self {
            ChannelMessage::Text(t) => ChannelMessage::Text(t.clone()),
            ChannelMessage::Json(v) => ChannelMessage::Json(clone_document(v)),
        }
    }
}

impl Clone for ClientCommand {
    fn clone(&self) -> (r: Self)
        ensures
            r == *self,
    {
        match self {
            ClientCommand::Text(t) => ClientCommand::Text(t.clone()),
            ClientCommand::ChannelMessage(c, m) => ClientCommand::ChannelMessage(
                c.clone(),
                m.clone(),
            ),
            ClientCommand::Error(t) => ClientCommand::Error(t.clone()),
            ClientCommand::Success(t) => ClientCommand::Success(t.clone()),
        }
    }
}

impl TerminalStreamCommand {
    /// The channel that the command is about.
    pub fn channel_id(&self) -> (c: &ChannelId)
        ensures
            c@ == self@.channel(),
    {
        match self {
            TerminalStreamCommand::CreateChannel(c) => c,
            TerminalStreamCommand::Subscribe(c) => c,
            TerminalStreamCommand::NotifyChannel(c, _) => c,
        }
    }

    /// The name of the command's variant.
    pub fn tag(&self) -> (t: &'static str)
        ensures
            t@ == self@.tag(),
    {
        match self {
            TerminalStreamCommand::CreateChannel(_) => "CreateChannel",
            TerminalStreamCommand::Subscribe(_) => "Subscribe",
            TerminalStreamCommand::NotifyChannel(_, _) => "NotifyChannel",
        }
    }

    /// The permission that an endpoint needs for the command.
    pub fn required_permission(&self) -> (p: Permission)
        ensures
            p == self@.required_permission(),
    {
        match self {
            TerminalStreamCommand::CreateChannel(_) => Permission::CreateChannel,
            TerminalStreamCommand::Subscribe(_) => Permission::Subscribe,
            TerminalStreamCommand::NotifyChannel(_, _) => Permission::NotifyChannel,
        }
    }

    /// The acknowledgement for this command.
    pub fn acknowledgement(&self) -> (ev: ClientCommand)
        ensures
            ev@ == EventView::Success(self@.ack_text()),
    {
        let mut s: String = String::from_str("Command executed: ");
        s.append(self.tag());
        s.append(" ");
        s.append(self.channel_id().as_str());
        ClientCommand::Success(s)
    }
}

} // verus!
