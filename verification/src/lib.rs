//! Secure streams over cooperative, non-blocking transports.
//!
//! A session engine written against blocking reads and writes is driven over
//! a transport that never blocks: every attempt on the transport is made
//! once, "not ready" reaches the engine as a would-block error, and the
//! operation that the engine was running is suspended until it is resumed.

pub mod acceptor;
pub mod connector;
pub mod engine;
pub mod handshake;
pub mod outcome;
pub mod prelude;
pub mod resume;
pub mod shim;
pub mod stream;

pub use acceptor::{AcceptError, TlsAcceptor};
pub use connector::{ConnectError, TlsConnector};
pub use handshake::{client_handshake, server_handshake, DriverState, Handshake};
pub use outcome::Polled;
pub use stream::TlsStream;
