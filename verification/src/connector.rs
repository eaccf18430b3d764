//! The client side: one shared configuration, a peer name validated before
//! anything else, and a fresh session per transport.

use vstd::prelude::*;
use std::sync::Arc;
use vstd::std_specs::convert::FromSpecImpl;
use crate::engine::{
    add_anchors, ascii_lowercase, client_fragment_limit, client_fragment_limit_of,
    dns_name_accepted, fragment_limit_fits, limit_fits, listed_anchors, name_text, session_peer,
    session_roots, trusted_roots, trusts_web_roots, web_roots,
};
use crate::handshake::{client_handshake, DriverState, Handshake};

verus! {

/// Why a connection could not be started.
#[derive(Debug, Clone, Copy, PartialEq, Eq, Structural)]
pub enum ConnectError {
    /// The peer name is not a syntactically valid DNS name.
    InvalidDomain,
    /// The configuration sets a fragment limit under which the engine cannot
    /// make a session.
    InvalidConfiguration,
}

impl ConnectError {
    /// The error in words.
    pub fn message(&self) -> (text: &'static str)
        ensures
            text@ == match *self {
                ConnectError::InvalidDomain => "invalid domain"@,
                ConnectError::InvalidConfiguration => "invalid configuration"@,
            },
    {
        match self {
            ConnectError::InvalidDomain => "invalid domain",
            ConnectError::InvalidConfiguration => "invalid configuration",
        }
    }
}

/// Connects under one client configuration, which any number of handshakes
/// may share.
#[derive(Clone)]
pub struct TlsConnector {
    inner: Arc<rustls::ClientConfig>,
}

/// Whether a handshake has just been started over `stream` with a session
/// made from `config` for the peer `peer`: the driver holds the transport as
/// it was given, and its session holds the trust anchors of the
/// configuration and the peer name in lower case.
pub open spec fn starts_for<S>(
    driver: Handshake<rustls::ClientSession, S>,
    config: rustls::ClientConfig,
    peer: Seq<char>,
    stream: S,
) -> bool {
    &&& driver@ is Handshaking
    &&& driver@->transport == stream
    &&& session_roots(driver@->session) == trusted_roots(config)
    &&& session_peer(driver@->session) == ascii_lowercase(peer)
}

/// What `connect_parsed` gives for a parsed peer name, a configuration and a
/// transport. A rejected name gives the invalid-domain error, whatever the
/// configuration; a valid name under a fragment limit that does not fit
/// gives the invalid-configuration error; a valid name under a limit that
/// fits gives a handshake started for that name from that configuration.
pub open spec fn started<'a, S>(
    parsed: Result<webpki::DNSNameRef<'a>, webpki::InvalidDNSNameError>,
    config: rustls::ClientConfig,
    stream: S,
    outcome: Result<Handshake<rustls::ClientSession, S>, ConnectError>,
) -> bool {
    match parsed {
        Ok(name) => if fragment_limit_fits(client_fragment_limit(config)) {
            outcome matches Ok(driver) && starts_for(driver, config, name_text(name), stream)
        } else {
            outcome == Err::<Handshake<rustls::ClientSession, S>, ConnectError>(
                ConnectError::InvalidConfiguration,
            )
        },
        Err(_) => outcome == Err::<Handshake<rustls::ClientSession, S>, ConnectError>(
            ConnectError::InvalidDomain,
        ),
    }
}

impl TlsConnector {
    /// The configuration that every session is made from.
    pub closed spec fn config(&self) -> Arc<rustls::ClientConfig> {
        self.inner
    }

    /// The configuration, to look at.
    pub fn config_ref(&self) -> (config: &Arc<rustls::ClientConfig>)
        ensures
            *config == self.config(),
    {
        &self.inner
    }

    /// Whether sessions can be made from the configuration: its fragment
    /// limit fits.
    pub open spec fn usable(&self) -> bool {
        fragment_limit_fits(client_fragment_limit(*self.config()))
    }

    /// Two connectors that trust the web roots trust the same anchors, in the
    /// same order: so do any two made by `new` or by `default`.
    pub proof fn lemma_same_web_roots(one: Self, other: Self)
        requires
            trusts_web_roots(*one.config()),
            trusts_web_roots(*other.config()),
        ensures
            trusted_roots(*one.config()) == trusted_roots(*other.config()),
    {
    }

    /// A connector with a fresh configuration that trusts the anchors of
    /// `list`, and no others, and from which sessions can be made.
    pub fn trusting(list: &webpki::TLSServerTrustAnchors) -> (connector: Self)
        ensures
            trusted_roots(*connector.config()) == listed_anchors(*list),
            connector.usable(),
    {
        let mut config = rustls::ClientConfig::new();
        add_anchors(&mut config, list);
        TlsConnector::from(Arc::new(config))
    }

    /// A connector whose configuration trusts the web roots that come with
    /// the library, and no others: the same as `default`.
    pub fn new() -> (connector: Self)
        ensures
            trusts_web_roots(*connector.config()),
            connector.usable(),
    {
        Default::default()
    }

    /// Starts a client handshake over `stream` for a peer name that has been
    /// parsed already. A rejected name, or a configuration from which no
    /// session can be made, fails here, before a session exists and with the
    /// transport untouched.
    pub fn connect_parsed<'a, S>(
        &self,
        parsed: Result<webpki::DNSNameRef<'a>, webpki::InvalidDNSNameError>,
        stream: S,
    ) -> (outcome: Result<Handshake<rustls::ClientSession, S>, ConnectError>)
        ensures
            started(parsed, *self.config(), stream, outcome),
    {
        match parsed {
            Ok(domain) => {
                if !limit_fits(client_fragment_limit_of(&self.inner)) {
                    return Err(ConnectError::InvalidConfiguration);
                }
                let session = rustls::ClientSession::new(&self.inner, domain);
                Ok(client_handshake(session, stream))
            },
            Err(_) => Err(ConnectError::InvalidDomain),
        }
    }

    /// Validates the peer name, then makes a fresh client session from this
    /// connector's configuration for that name and starts its handshake over
    /// `stream`. A name that is not a valid DNS name fails at once with
    /// `InvalidDomain`; a valid name under a configuration from which no
    /// session can be made fails at once with `InvalidConfiguration`; any
    /// other always starts a handshake that holds the transport as it was
    /// given.
    pub fn connect<S>(&self, domain: &str, stream: S) -> (outcome: Result<
        Handshake<rustls::ClientSession, S>,
        ConnectError,
    >)
        ensures
            outcome is Ok <==> dns_name_accepted(domain@) && self.usable(),
            outcome matches Ok(driver) ==> starts_for(driver, *self.config(), domain@, stream),
            outcome matches Err(e) ==> e == (if dns_name_accepted(domain@) {
                ConnectError::InvalidConfiguration
            } else {
                ConnectError::InvalidDomain
            }),
    {
        let parsed = webpki::DNSNameRef::try_from_ascii_str(domain);
        self.connect_parsed(parsed, stream)
    }
}

impl From<Arc<rustls::ClientConfig>> for TlsConnector {
    fn from(inner: Arc<rustls::ClientConfig>) -> (connector: TlsConnector)
        ensures
            connector.config() == inner,
    {
        TlsConnector { inner }
    }
}

impl FromSpecImpl<Arc<rustls::ClientConfig>> for TlsConnector {
    open spec fn obeys_from_spec() -> bool {
        true
    }

    closed spec fn from_spec(inner: Arc<rustls::ClientConfig>) -> TlsConnector {
        TlsConnector { inner }
    }
}

impl Default for TlsConnector {
    /// A connector whose configuration trusts the web roots that come with
    /// the library, and no others.
    fn default() -> (connector: Self)
        ensures
            trusts_web_roots(*connector.config()),
            connector.usable(),
    {
        TlsConnector::trusting(web_roots())
    }
}

} // verus!
