//! The server side: one shared configuration, a fresh session per transport.

use vstd::prelude::*;
use std::sync::Arc;
use vstd::std_specs::convert::FromSpecImpl;
use crate::engine::{
    fragment_limit_fits, limit_fits, server_fragment_limit, server_fragment_limit_of,
    server_session_limit,
};
use crate::handshake::{server_handshake, DriverState, Handshake};

verus! {

/// Why a connection could not be accepted.
#[derive(Debug, Clone, Copy, PartialEq, Eq, Structural)]
pub enum AcceptError {
    /// The configuration sets a fragment limit under which the engine cannot
    /// make a session.
    InvalidConfiguration,
}

impl AcceptError {
    /// The error in words.
    pub fn message(&self) -> (text: &'static str)
        ensures
            text@ == "invalid configuration"@,
    {
        "invalid configuration"
    }
}

/// Accepts connections under one server configuration, which any number of
/// handshakes may share.
#[derive(Clone)]
pub struct TlsAcceptor {
    inner: Arc<rustls::ServerConfig>,
}

impl TlsAcceptor {
    /// The configuration that every accepted session is made from.
    pub closed spec fn config(&self) -> Arc<rustls::ServerConfig> {
        self.inner
    }

    /// Whether sessions can be made from the configuration: its fragment
    /// limit fits.
    pub open spec fn usable(&self) -> bool {
        fragment_limit_fits(server_fragment_limit(*self.config()))
    }

    /// Makes a fresh server session from this acceptor's configuration and
    /// starts its handshake over `stream`. The transport is not touched: the
    /// driver holds it as it was given. A configuration from which no session
    /// can be made fails at once with `InvalidConfiguration`, before a session
    /// exists; any other succeeds.
    pub fn accept<S>(&self, stream: S) -> (outcome: Result<
        Handshake<rustls::ServerSession, S>,
        AcceptError,
    >)
        ensures
            outcome is Ok <==> self.usable(),
            outcome matches Ok(driver) ==> {
                &&& driver@ is Handshaking
                &&& driver@->transport == stream
                &&& server_session_limit(driver@->session) == server_fragment_limit(
                    *self.config(),
                )
            },
            outcome matches Err(e) ==> e == AcceptError::InvalidConfiguration,
    {
        if !limit_fits(server_fragment_limit_of(&self.inner)) {
            return Err(AcceptError::InvalidConfiguration);
        }
        let session = rustls::ServerSession::new(&self.inner);
        Ok(server_handshake(session, stream))
    }
}

impl From<Arc<rustls::ServerConfig>> for TlsAcceptor {
    fn from(inner: Arc<rustls::ServerConfig>) -> (acceptor: TlsAcceptor)
        ensures
            acceptor.config() == inner,
    {
        TlsAcceptor { inner }
    }
}

impl FromSpecImpl<Arc<rustls::ServerConfig>> for TlsAcceptor {
    open spec fn obeys_from_spec() -> bool {
        true
    }

    closed spec fn from_spec(inner: Arc<rustls::ServerConfig>) -> TlsAcceptor {
        TlsAcceptor { inner }
    }
}

} // verus!
