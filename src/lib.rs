//! Connection, event-bus and session-state core of a browser chat client.
pub mod bus;
pub mod connection;
pub mod protocol;
pub mod session;
