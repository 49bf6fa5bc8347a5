//! Broker engine of a WebSocket publish/subscribe gateway.
//!
//! Clients connect to a listener, create channels, subscribe to them and
//! publish messages; every published message is fanned out to the outbound
//! queue of each current subscriber. The engine is a state machine over a
//! [`directory::Directory`]: transport code feeds it decoded frames and drains
//! the outbound queues.

pub mod text;
pub mod error;
pub mod message;
pub mod queue;
pub mod settings;
pub mod endpoint;
pub mod channel;
pub mod directory;
pub mod hub;
pub mod websocket;
pub mod server;
pub mod laws;
