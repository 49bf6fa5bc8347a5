//! The error type shared by every broker operation.

use vstd::prelude::*;
use vstd::string::*;
use crate::text::{decimal_digits, decimal_usize};

verus! {

/// What went wrong in a broker operation.
#[derive(Debug)]
pub enum AppError {
    /// I/O error occurred
    Io(String),
    /// WebSocket error
    WebSocket(String),
    /// Channel send error
    ChannelSend(String),
    /// Lock poisoned error
    LockPoisoned(String),
    /// Channel not found
    ChannelNotFound(String),
    /// Endpoint not found
    EndpointNotFound(String),
    /// Permission denied
    PermissionDenied(String),
    /// Invalid configuration
    InvalidConfig(String),
    /// Message too large
    MessageTooLarge { size: usize, max: usize },
    /// Rate limit exceeded
    RateLimitExceeded(String),
    /// Connection limit exceeded
    ConnectionLimitExceeded(String),
    /// Serialization error
    Serialization(String),
    /// Generic error with message
    Generic(String),
}

/// An [`AppError`] with its strings read as character sequences.
pub enum ErrorView {
    Io(Seq<char>),
    WebSocket(Seq<char>),
    ChannelSend(Seq<char>),
    LockPoisoned(Seq<char>),
    ChannelNotFound(Seq<char>),
    EndpointNotFound(Seq<char>),
    PermissionDenied(Seq<char>),
    InvalidConfig(Seq<char>),
    MessageTooLarge { size: nat, max: nat },
    RateLimitExceeded(Seq<char>),
    ConnectionLimitExceeded(Seq<char>),
    Serialization(Seq<char>),
    Generic(Seq<char>),
}

impl ErrorView {
    /// The human-readable text of the error: a prefix that names the kind,
    /// then the detail.
    pub open spec fn text(self) -> Seq<char> {
        match self {
            ErrorView::Io(d) => "I/O error: "@ + d,
            ErrorView::WebSocket(d) => "WebSocket error: "@ + d,
            ErrorView::ChannelSend(d) => "Channel send error: "@ + d,
            ErrorView::LockPoisoned(d) => "Lock poisoned: "@ + d,
            ErrorView::ChannelNotFound(d) => "Channel not found: "@ + d,
            ErrorView::EndpointNotFound(d) => "Endpoint not found: "@ + d,
            ErrorView::PermissionDenied(d) => "Permission denied: "@ + d,
            ErrorView::InvalidConfig(d) => "Invalid configuration: "@ + d,
            ErrorView::MessageTooLarge { size, max } => "Message too large: "@ + decimal_digits(
                size,
            ) + " bytes (max: "@ + decimal_digits(max) + " bytes)"@,
            ErrorView::RateLimitExceeded(d) => "Rate limit exceeded: "@ + d,
            ErrorView::ConnectionLimitExceeded(d) => "Connection limit exceeded: "@ + d,
            ErrorView::Serialization(d) => "Serialization error: "@ + d,
            ErrorView::Generic(d) => d,
        }
    }
}

impl View for AppError {
    type V = ErrorView;

    open spec fn view(&self) -> ErrorView {
        match self {
            AppError::Io(d) => ErrorView::Io(d@),
            AppError::WebSocket(d) => ErrorView::WebSocket(d@),
            AppError::ChannelSend(d) => ErrorView::ChannelSend(d@),
            AppError::LockPoisoned(d) => ErrorView::LockPoisoned(d@),
            AppError::ChannelNotFound(d) => ErrorView::ChannelNotFound(d@),
            AppError::EndpointNotFound(d) => ErrorView::EndpointNotFound(d@),
            AppError::PermissionDenied(d) => ErrorView::PermissionDenied(d@),
            AppError::InvalidConfig(d) => ErrorView::InvalidConfig(d@),
            AppError::MessageTooLarge { size, max } => ErrorView::MessageTooLarge {
                size: *size as nat,
                max: *max as nat,
            },
            AppError::RateLimitExceeded(d) => ErrorView::RateLimitExceeded(d@),
            AppError::ConnectionLimitExceeded(d) => ErrorView::ConnectionLimitExceeded(d@),
            AppError::Serialization(d) => ErrorView::Serialization(d@),
            AppError::Generic(d) => ErrorView::Generic(d@),
        }
    }
}

fn prefixed(prefix: &str, detail: &String) -> (s: String)
    ensures
        s@ == prefix@ + detail@,
{
    String::from_str(prefix).concat(detail.as_str())
}

impl AppError {
    /// Create a generic error from a string message.
    pub fn msg(msg: String) -> (e: Self)
        ensures
            e@ == ErrorView::Generic(msg@),
    {
        AppError::Generic(msg)
    }

    /// Create a generic error from a string slice.
    pub fn msg_str(msg: &str) -> (e: Self)
        ensures
            e@ == ErrorView::Generic(msg@),
    {
        AppError::Generic(String::from_str(msg))
    }

    /// The text shown to a client for this error.
    pub fn message(&self) -> (s: String)
        ensures
            s@ == self@.text(),
    {
        match self {
            AppError::Io(d) => prefixed("I/O error: ", d),
            AppError::WebSocket(d) => prefixed("WebSocket error: ", d),
            AppError::ChannelSend(d) => prefixed("Channel send error: ", d),
            AppError::LockPoisoned(d) => prefixed("Lock poisoned: ", d),
            AppError::ChannelNotFound(d) => prefixed("Channel not found: ", d),
            AppError::EndpointNotFound(d) => prefixed("Endpoint not found: ", d),
            AppError::PermissionDenied(d) => prefixed("Permission denied: ", d),
            AppError::InvalidConfig(d) => prefixed("Invalid configuration: ", d),
            AppError::MessageTooLarge { size, max } => {
                let mut s: String = String::from_str("Message too large: ");
                s.append(decimal_usize(*size).as_str());
                s.append(" bytes (max: ");
                s.append(decimal_usize(*max).as_str());
                s.append(" bytes)");
                s
            },
            AppError::RateLimitExceeded(d) => prefixed("Rate limit exceeded: ", d),
            AppError::ConnectionLimitExceeded(d) => prefixed("Connection limit exceeded: ", d),
            AppError::Serialization(d) => prefixed("Serialization error: ", d),
            AppError::Generic(d) => d.clone(),
        }
    }
}

} // verus!
