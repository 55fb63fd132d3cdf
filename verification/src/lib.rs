//! Core of a UDP bridge that lets a remote caller read the current value of a
//! named simulation variable over a pipe-delimited textual protocol.
//!
//! The crate covers the wire codec (request parsing and response
//! serialization), the handler registry and dispatcher, and the server
//! lifecycle state machine. Socket I/O, logging and the simulator-backed
//! value provider live outside this crate; the core reaches the provider
//! only through the [`handler::UdpRequestHandler`] interface.

pub mod dataref;
pub mod dispatcher;
pub mod error;
pub mod handler;
pub mod request;
pub mod response;
pub mod server;
pub mod table;
pub mod text;
