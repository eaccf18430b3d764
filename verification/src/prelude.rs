//! The names of the engine that callers of this library need most.

pub use rustls::{
    internal::pemfile, ClientConfig, ClientSession, NoClientAuth, ServerConfig, ServerSession,
    Session as RustlsSession,
};
pub use webpki::DNSNameRef;
pub use webpki_roots::TLS_SERVER_ROOTS;
