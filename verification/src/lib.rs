//! The session engine of a small peer-to-peer text chat.
//!
//! Peers exchange short text messages over one publish/subscribe topic. This
//! crate holds the rules of a session: how a received payload becomes an
//! event, how a line typed by the user is told apart into a local command or
//! an outgoing message, how events queue up for the one consumer, and how the
//! subscription worker moves between its states. Network and windowing are
//! left to the program that drives a session.

pub mod event;
pub mod decode;
pub mod command;
pub mod interpreter;
pub mod bridge;
pub mod backoff;
pub mod publisher;
pub mod config;
pub mod subscription;
pub mod session;
