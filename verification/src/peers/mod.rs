//! Messages and connections between peers.
pub mod channels;
pub mod connection;
pub mod handler;
pub mod listener;
pub mod messages;
