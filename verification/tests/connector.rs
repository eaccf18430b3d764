use std::sync::Arc;

use async_tls_lite::acceptor::AcceptError;
use async_tls_lite::connector::ConnectError;
use async_tls_lite::engine::limit_fits;
use async_tls_lite::prelude::{
    ClientConfig, DNSNameRef, NoClientAuth, ServerConfig, TLS_SERVER_ROOTS,
};
use async_tls_lite::{TlsAcceptor, TlsConnector};

/// A transport that counts what is done to it.
#[derive(Debug, Default, PartialEq)]
struct Counting {
    touched: usize,
}

#[test]
fn connect_rejects_names_that_are_not_dns_names() {
    let connector = TlsConnector::from(Arc::new(ClientConfig::new()));
    let long_label = "a".repeat(64);
    let long_name = format!("{}.example", ["abcdefgh"; 40].join("."));
    let rejected = [
        "",
        ".",
        "not a domain",
        "-leading.example",
        "trailing-.example",
        "double..dot",
        ".leading.dot",
        "*.wildcard.example",
        "127.0.0.1",
        "example.123",
        "caf\u{e9}.example",
        "under score.example",
        "example.com:443",
        "https://example.com",
        long_label.as_str(),
        long_name.as_str(),
    ];
    for name in rejected {
        let outcome = connector.connect(name, Counting::default());
        match outcome {
            Err(e) => assert_eq!(e, ConnectError::InvalidDomain, "{:?}", name),
            Ok(_) => panic!("{:?} was accepted", name),
        }
    }
}

#[test]
fn connect_starts_a_handshake_for_valid_names_without_touching_the_transport() {
    let connector = TlsConnector::from(Arc::new(ClientConfig::new()));
    let long_label = "a".repeat(63);
    let accepted = [
        "github.com",
        "tls.lvh.me",
        "localhost",
        "EXAMPLE.Com",
        "trailing.dot.example.",
        "with_underscore.example",
        "a-b.c-d.example",
        "1numeric.start.example",
        long_label.as_str(),
    ];
    for name in accepted {
        let mut driver = match connector.connect(name, Counting { touched: 0 }) {
            Ok(driver) => driver,
            Err(e) => panic!("{:?} was rejected: {:?}", name, e),
        };
        assert!(driver.is_handshaking());
        let (_session, transport) = driver.take_parts();
        assert_eq!(transport, Counting { touched: 0 });
    }
}

#[test]
fn connect_agrees_with_the_name_syntax() {
    let connector = TlsConnector::new();
    let names = ["example.com", "exa mple.com", "a.b.c", "a..b", "x", "9", "-", "_"];
    for name in names {
        let valid = DNSNameRef::try_from_ascii_str(name).is_ok();
        assert_eq!(connector.connect(name, ()).is_ok(), valid, "{:?}", name);
    }
}

#[test]
fn connect_parsed_follows_the_parsed_name() {
    let connector = TlsConnector::default();

    let parsed = DNSNameRef::try_from_ascii_str("tls.lvh.me");
    assert!(parsed.is_ok());
    let mut driver = connector.connect_parsed(parsed, 5u8).unwrap();
    assert!(driver.is_handshaking());
    assert_eq!(driver.take_parts().1, 5);

    let parsed = DNSNameRef::try_from_ascii_str("no such name");
    assert!(parsed.is_err());
    match connector.connect_parsed(parsed, 5u8) {
        Err(e) => assert_eq!(e, ConnectError::InvalidDomain),
        Ok(_) => panic!("a rejected name started a handshake"),
    }
}

#[test]
fn connect_error_in_words() {
    assert_eq!(ConnectError::InvalidDomain.message(), "invalid domain");
    assert_eq!(ConnectError::InvalidConfiguration.message(), "invalid configuration");
    assert_eq!(AcceptError::InvalidConfiguration.message(), "invalid configuration");
}

fn client_config_limited_to(limit: Option<usize>) -> Arc<ClientConfig> {
    let mut config = ClientConfig::new();
    config.mtu = limit;
    Arc::new(config)
}

fn server_config_limited_to(limit: Option<usize>) -> Arc<ServerConfig> {
    let mut config = ServerConfig::new(NoClientAuth::new());
    config.mtu = limit;
    Arc::new(config)
}

#[test]
fn connect_refuses_a_fragment_limit_that_does_not_fit() {
    for limit in [Some(0), Some(16385), Some(usize::MAX)] {
        let connector = TlsConnector::from(client_config_limited_to(limit));
        match connector.connect("tls.lvh.me", Counting::default()) {
            Err(e) => assert_eq!(e, ConnectError::InvalidConfiguration, "{:?}", limit),
            Ok(_) => panic!("{:?} was accepted", limit),
        }

        let parsed = DNSNameRef::try_from_ascii_str("tls.lvh.me");
        match connector.connect_parsed(parsed, Counting::default()) {
            Err(e) => assert_eq!(e, ConnectError::InvalidConfiguration, "{:?}", limit),
            Ok(_) => panic!("{:?} was accepted", limit),
        }
    }
}

#[test]
fn connect_names_the_domain_first_where_both_are_wrong() {
    let connector = TlsConnector::from(client_config_limited_to(Some(0)));
    match connector.connect("not a domain", Counting::default()) {
        Err(e) => assert_eq!(e, ConnectError::InvalidDomain),
        Ok(_) => panic!("a rejected name started a handshake"),
    }
}

#[test]
fn connect_starts_under_a_fragment_limit_that_fits() {
    for limit in [None, Some(1), Some(512), Some(16384)] {
        let connector = TlsConnector::from(client_config_limited_to(limit));
        let mut driver = match connector.connect("tls.lvh.me", Counting { touched: 0 }) {
            Ok(driver) => driver,
            Err(e) => panic!("{:?} was refused: {:?}", limit, e),
        };
        assert!(driver.is_handshaking());
        assert_eq!(driver.take_parts().1, Counting { touched: 0 });
    }
}

#[test]
fn accept_refuses_a_fragment_limit_that_does_not_fit() {
    for limit in [Some(0), Some(16385), Some(usize::MAX)] {
        let acceptor = TlsAcceptor::from(server_config_limited_to(limit));
        match acceptor.accept(Counting::default()) {
            Err(e) => assert_eq!(e, AcceptError::InvalidConfiguration, "{:?}", limit),
            Ok(_) => panic!("{:?} was accepted", limit),
        }
    }
}

#[test]
fn accept_starts_under_a_fragment_limit_that_fits() {
    for limit in [None, Some(1), Some(512), Some(16384)] {
        let acceptor = TlsAcceptor::from(server_config_limited_to(limit));
        let mut driver = match acceptor.accept(Counting { touched: 0 }) {
            Ok(driver) => driver,
            Err(e) => panic!("{:?} was refused: {:?}", limit, e),
        };
        assert!(driver.is_handshaking());
        assert_eq!(driver.take_parts().1, Counting { touched: 0 });
    }
}

#[test]
fn fragment_limits_that_fit() {
    assert!(limit_fits(None));
    assert!(limit_fits(Some(1)));
    assert!(limit_fits(Some(16384)));
    assert!(!limit_fits(Some(0)));
    assert!(!limit_fits(Some(16385)));
}

#[test]
fn new_connectors_can_always_make_sessions() {
    assert_eq!(TlsConnector::new().config_ref().mtu, None);
    assert_eq!(TlsConnector::default().config_ref().mtu, None);
    let list = webpki::TLSServerTrustAnchors(&[]);
    assert_eq!(TlsConnector::trusting(&list).config_ref().mtu, None);
    assert!(TlsConnector::new().connect("github.com", ()).is_ok());
}

#[test]
fn accept_starts_a_handshake_that_holds_the_transport() {
    let acceptor = TlsAcceptor::from(Arc::new(ServerConfig::new(NoClientAuth::new())));
    let mut driver = acceptor.accept(Counting { touched: 0 }).unwrap();
    assert!(driver.is_handshaking());
    let (_session, transport) = driver.take_parts();
    assert_eq!(transport, Counting { touched: 0 });

    let mut again = acceptor.clone().accept(vec![1u8, 2, 3]).unwrap();
    assert!(again.is_handshaking());
    assert_eq!(again.take_parts().1, vec![1u8, 2, 3]);
}

/// What a connector's root store holds: of each anchor its subject, its
/// public key information and its name constraints.
fn roots_of(connector: &TlsConnector) -> Vec<(Vec<u8>, Vec<u8>, Option<Vec<u8>>)> {
    let mut roots = Vec::new();
    for owned in &connector.config_ref().root_store.roots {
        let anchor = owned.to_trust_anchor();
        roots.push((
            anchor.subject.to_vec(),
            anchor.spki.to_vec(),
            anchor.name_constraints.map(|bytes| bytes.to_vec()),
        ));
    }
    roots
}

fn anchors_of(list: &webpki::TLSServerTrustAnchors) -> Vec<(Vec<u8>, Vec<u8>, Option<Vec<u8>>)> {
    let mut anchors = Vec::new();
    for anchor in list.0 {
        anchors.push((
            anchor.subject.to_vec(),
            anchor.spki.to_vec(),
            anchor.name_constraints.map(|bytes| bytes.to_vec()),
        ));
    }
    anchors
}

#[test]
fn new_connector_trusts_the_web_roots_and_no_others() {
    let bundled = anchors_of(&TLS_SERVER_ROOTS);
    assert!(!bundled.is_empty());

    assert_eq!(roots_of(&TlsConnector::new()), bundled);
    assert_eq!(roots_of(&TlsConnector::default()), bundled);
}

#[test]
fn connector_trusts_the_anchors_it_was_given_in_their_order() {
    let listed = [
        webpki::TrustAnchor { subject: b"first", spki: b"key one", name_constraints: None },
        webpki::TrustAnchor {
            subject: b"second",
            spki: b"key two",
            name_constraints: Some(b"only here"),
        },
    ];
    let list = webpki::TLSServerTrustAnchors(&listed);
    let connector = TlsConnector::trusting(&list);
    assert_eq!(
        roots_of(&connector),
        vec![
            (b"first".to_vec(), b"key one".to_vec(), None),
            (b"second".to_vec(), b"key two".to_vec(), Some(b"only here".to_vec())),
        ]
    );
    assert_eq!(roots_of(&connector), anchors_of(&list));
}

#[test]
fn connector_given_no_anchor_trusts_none() {
    let list = webpki::TLSServerTrustAnchors(&[]);
    let connector = TlsConnector::trusting(&list);
    assert!(roots_of(&connector).is_empty());
    assert!(connector.config_ref().root_store.is_empty());
}

#[test]
fn connector_made_from_a_configuration_keeps_it() {
    let config = Arc::new(ClientConfig::new());
    let connector = TlsConnector::from(config.clone());
    assert!(Arc::ptr_eq(connector.config_ref(), &config));
}
