//! The proxy between a topos sequencer and the TCE node.
//!
//! The application hands its new certificates to the proxy, which submits them to the TCE node;
//! the certificates that the TCE node delivers come back as events. Three tasks do the work: the
//! loop of the proxy ([`worker`]), the task that carries out the commands of the client at the
//! TCE node ([`commands`]), and the task that watches the stream of certificates ([`watch`]). Each
//! is a state with a method for everything that can come in; a method says what is to be done next
//! and hands over what can be handed over without waiting. Whoever runs the tasks waits for what
//! comes in and does what is to be done.
//!
//! A client ([`client`]) is made by a builder ([`builder`]), and a proxy is started, in stages:
//! between two stages lies something that takes waiting, whose outcome the next stage takes.
//!
//! What each operation does is stated in [`operations`], and what holds of the proxy as a whole in
//! [`laws`].

pub mod builder;
pub mod channel;
pub mod client;
pub mod commands;
pub mod endpoint;
pub mod error;
pub mod laws;
pub mod operations;
pub mod replied;
pub mod target;
pub mod types;
pub mod watch;
pub mod worker;
