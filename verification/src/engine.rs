//! What the library takes from the session engine and from the peer-name
//! syntax: the types it carries and the calls it makes.

use vstd::prelude::*;
use std::sync::Arc;

verus! {

/// `rustls::ClientSession`: the engine's state for one connection, client
/// side. Opaque here.
#[verifier::external_type_specification]
#[verifier::external_body]
pub struct ExClientSession(rustls::ClientSession);

/// `rustls::ServerSession`: the engine's state for one connection, server
/// side. Opaque here.
#[verifier::external_type_specification]
#[verifier::external_body]
pub struct ExServerSession(rustls::ServerSession);

/// `rustls::ClientConfig`: the settings that client sessions are made from.
/// Opaque here.
#[verifier::external_type_specification]
#[verifier::external_body]
pub struct ExClientConfig(rustls::ClientConfig);

/// `rustls::ServerConfig`: the settings that server sessions are made from.
/// Opaque here.
#[verifier::external_type_specification]
#[verifier::external_body]
pub struct ExServerConfig(rustls::ServerConfig);

/// `webpki::DNSNameRef`: a peer name that is known to be syntactically valid.
/// Opaque here.
#[verifier::external_type_specification]
#[verifier::external_body]
pub struct ExDnsNameRef<'a>(webpki::DNSNameRef<'a>);

/// `webpki::InvalidDNSNameError`: the refusal of a peer name. It carries
/// nothing.
#[verifier::external_type_specification]
#[verifier::external_body]
pub struct ExInvalidDnsNameError(webpki::InvalidDNSNameError);

/// `webpki::TLSServerTrustAnchors`: a list of trust anchors for
/// authenticating servers. Opaque here.
#[verifier::external_type_specification]
#[verifier::external_body]
pub struct ExTlsServerTrustAnchors<'a>(webpki::TLSServerTrustAnchors<'a>);

/// The trust anchors in the root store of a client configuration, in the
/// order in which they were added: of each its subject, its public key
/// information and its name constraints, as bytes.
pub uninterp spec fn trusted_roots(config: rustls::ClientConfig) -> Seq<
    (Seq<u8>, Seq<u8>, Option<Seq<u8>>),
>;

/// The trust anchors of a list, in its order: of each its subject, its public
/// key information and its name constraints, as bytes.
pub uninterp spec fn listed_anchors(list: webpki::TLSServerTrustAnchors) -> Seq<
    (Seq<u8>, Seq<u8>, Option<Seq<u8>>),
>;

/// Whether a list of trust anchors is the list of web roots that comes with
/// the library, `webpki_roots::TLS_SERVER_ROOTS`.
pub uninterp spec fn is_web_roots(list: webpki::TLSServerTrustAnchors) -> bool;

/// Whether a client configuration trusts the web roots that come with the
/// library, as that list has them, and no other anchor. There is one such
/// list of anchors: whatever is the list of web roots has the same.
pub open spec fn trusts_web_roots(config: rustls::ClientConfig) -> bool {
    exists|list: webpki::TLSServerTrustAnchors|
        {
            &&& #[trigger] is_web_roots(list)
            &&& trusted_roots(config) == listed_anchors(list)
            &&& forall|other: webpki::TLSServerTrustAnchors| #[trigger]
                is_web_roots(other) ==> listed_anchors(other) == listed_anchors(list)
        }
}

/// The text of a peer name that has been parsed: the text that was given,
/// letter for letter.
pub uninterp spec fn name_text(name: webpki::DNSNameRef) -> Seq<char>;

/// The trust anchors of the configuration that a client session holds, read
/// as `trusted_roots` reads them.
pub uninterp spec fn session_roots(session: rustls::ClientSession) -> Seq<
    (Seq<u8>, Seq<u8>, Option<Seq<u8>>),
>;

/// The peer name that a client session has started its handshake for.
pub uninterp spec fn session_peer(session: rustls::ClientSession) -> Seq<char>;

/// The fragment limit of the configuration that a server session holds.
pub uninterp spec fn server_session_limit(session: rustls::ServerSession) -> Option<usize>;

/// A text with its ASCII capital letters in lower case, as the engine keeps
/// peer names.
pub open spec fn ascii_lowercase(text: Seq<char>) -> Seq<char> {
    text.map_values(
        |c: char|
            if 65 <= c as u32 && c as u32 <= 90 {
                ((c as u32 + 32) as u8) as char
            } else {
                c
            },
    )
}

/// Whether a text is a syntactically valid DNS name for a peer: what
/// `webpki::DNSNameRef::try_from_ascii_str` accepts.
pub uninterp spec fn dns_name_accepted(name: Seq<char>) -> bool;

/// `webpki::DNSNameRef::try_from_ascii_str` succeeds exactly on the texts
/// that are syntactically valid DNS names, and the name that it gives has
/// the text that was given.
pub assume_specification<'a>[ webpki::DNSNameRef::<'a>::try_from_ascii_str ](
    dns_name: &'a str,
) -> (parsed: Result<webpki::DNSNameRef<'a>, webpki::InvalidDNSNameError>)
    ensures
        parsed is Ok <==> dns_name_accepted(dns_name@),
        parsed matches Ok(name) ==> name_text(name) == dns_name@,
;

/// The limit that a client configuration sets on the size of a fragment: its
/// field `mtu`.
pub uninterp spec fn client_fragment_limit(config: rustls::ClientConfig) -> Option<usize>;

/// The limit that a server configuration sets on the size of a fragment: its
/// field `mtu`.
pub uninterp spec fn server_fragment_limit(config: rustls::ServerConfig) -> Option<usize>;

/// The largest fragment that the engine can be asked to make.
pub const MAX_FRAGMENT_LIMIT: usize = 16384;

/// Whether the engine can make sessions under a fragment limit: no limit, or
/// one of at least one byte and of no more than the largest fragment.
pub open spec fn fragment_limit_fits(limit: Option<usize>) -> bool {
    limit matches Some(n) ==> 0 < n && n <= MAX_FRAGMENT_LIMIT
}

/// Tells whether the engine can make sessions under a fragment limit.
pub fn limit_fits(limit: Option<usize>) -> (fits: bool)
    ensures
        fits == fragment_limit_fits(limit),
{
    match limit {
        Some(n) => 0 < n && n <= MAX_FRAGMENT_LIMIT,
        None => true,
    }
}

/// The field `mtu` of `rustls::ClientConfig`: the fragment limit of the
/// configuration.
#[verifier::external_body]
pub(crate) fn client_fragment_limit_of(config: &Arc<rustls::ClientConfig>) -> (limit: Option<
    usize,
>)
    ensures
        limit == client_fragment_limit(**config),
{
    config.mtu
}

/// The field `mtu` of `rustls::ServerConfig`: the fragment limit of the
/// configuration.
#[verifier::external_body]
pub(crate) fn server_fragment_limit_of(config: &Arc<rustls::ServerConfig>) -> (limit: Option<
    usize,
>)
    ensures
        limit == server_fragment_limit(**config),
{
    config.mtu
}

/// `rustls::ClientSession::new` makes a fresh client session. It fragments
/// its first message under the configuration's fragment limit, which must
/// fit. The session holds the configuration that it was given, and with it
/// that configuration's trust anchors, and it starts its handshake for the
/// name that it was given, kept in lower case. It starts the handshake with
/// random bytes of its own, so no two sessions are alike and nothing else is
/// claimed of the result.
pub assume_specification[ rustls::ClientSession::new ](
    config: &Arc<rustls::ClientConfig>,
    hostname: webpki::DNSNameRef,
) -> (session: rustls::ClientSession)
    requires
        fragment_limit_fits(client_fragment_limit(**config)),
    ensures
        session_roots(session) == trusted_roots(**config),
        session_peer(session) == ascii_lowercase(name_text(hostname)),
;

/// `rustls::ServerSession::new` makes a fresh server session. It sets up its
/// fragmenter under the configuration's fragment limit, which must fit. The
/// session holds the configuration that it was given, and with it that
/// configuration's fragment limit. Nothing else is claimed of the result.
pub assume_specification[ rustls::ServerSession::new ](
    config: &Arc<rustls::ServerConfig>,
) -> (session: rustls::ServerSession)
    requires
        fragment_limit_fits(server_fragment_limit(**config)),
    ensures
        server_session_limit(session) == server_fragment_limit(**config),
;

/// `rustls::ClientConfig::new` makes a client configuration with the
/// engine's defaults: its root store is empty and it sets no fragment limit.
/// Nothing else is claimed of the result.
pub assume_specification[ rustls::ClientConfig::new ]() -> (config: rustls::ClientConfig)
    ensures
        trusted_roots(config) == Seq::<(Seq<u8>, Seq<u8>, Option<Seq<u8>>)>::empty(),
        client_fragment_limit(config) == None::<usize>,
;

/// `rustls::RootCertStore::add_server_trust_anchors`, called on the root store
/// of `config`: the anchors of `list` are added behind those that the store
/// holds, each as the list has it. The fragment limit is not touched.
#[verifier::external_body]
pub(crate) fn add_anchors(config: &mut rustls::ClientConfig, list: &webpki::TLSServerTrustAnchors)
    ensures
        trusted_roots(*final(config)) == trusted_roots(*old(config)) + listed_anchors(*list),
        client_fragment_limit(*final(config)) == client_fragment_limit(*old(config)),
{
    config.root_store.add_server_trust_anchors(list);
}

/// `webpki_roots::TLS_SERVER_ROOTS`: the list of web roots that comes with
/// the library. The list handed out is that list, and every list that is it
/// has its anchors; nothing is claimed of what the anchors are.
#[verifier::external_body]
pub(crate) fn web_roots() -> (list: &'static webpki::TLSServerTrustAnchors<'static>)
    ensures
        is_web_roots(*list),
        forall|other: webpki::TLSServerTrustAnchors| #[trigger]
            is_web_roots(other) ==> listed_anchors(other) == listed_anchors(*list),
{
    &webpki_roots::TLS_SERVER_ROOTS
}

} // verus!
