//! Tests of what transports, handshakes and extensions become, without any I/O.

use hserver::{
    ConnectionBuilder, ConnectionInfo, PeerAddr, Plain, Poll, Server, Tls, TlsHandshake,
    UpgradableTlsHandshake,
};
use http::Extensions;
use rustls::{
    crypto::ring,
    pki_types::{PrivateKeyDer, PrivatePkcs8KeyDer},
    ServerConfig,
};
use std::sync::{
    atomic::{AtomicUsize, Ordering},
    Arc,
};

/// An IPv4 peer.
const FIRST_PEER: PeerAddr = PeerAddr::V4 {
    octets: [198, 51, 100, 1],
    port: 1,
};

/// An IPv6 peer.
const SECOND_PEER: PeerAddr = PeerAddr::V6 {
    segments: [0x2001, 0xdb8, 0, 0, 0, 0, 0, 1],
    port: 65535,
    flowinfo: 7,
    scope_id: 9,
};

/// A service that counts how often it has been cloned.
struct Counted {
    clones: Arc<AtomicUsize>,
}

impl Counted {
    fn new() -> (Self, Arc<AtomicUsize>) {
        let clones = Arc::new(AtomicUsize::new(0));
        let service = Counted {
            clones: Arc::clone(&clones),
        };
        (service, clones)
    }
}

impl Clone for Counted {
    fn clone(&self) -> Self {
        self.clones.fetch_add(1, Ordering::SeqCst);
        Counted {
            clones: Arc::clone(&self.clones),
        }
    }
}

/// A server configuration around a fresh self-signed certificate.
fn server_config() -> Arc<ServerConfig> {
    let certified_key =
        rcgen::generate_simple_self_signed(vec!["localhost".to_owned()]).expect("a certificate");

    let config = ServerConfig::builder_with_provider(Arc::new(ring::default_provider()))
        .with_safe_default_protocol_versions()
        .expect("protocol versions")
        .with_no_client_auth()
        .with_single_cert(
            vec![certified_key.cert.der().clone()],
            PrivateKeyDer::Pkcs8(PrivatePkcs8KeyDer::from(
                certified_key.signing_key.serialize_der(),
            )),
        )
        .expect("a matching key");

    Arc::new(config)
}

/// The peer address that the extensions carry.
fn attached(extensions: &Extensions) -> Option<PeerAddr> {
    extensions
        .get::<ConnectionInfo>()
        .map(ConnectionInfo::peer_addr)
}

/// A handshake from the first peer, with its service at hand as a number.
fn handshake() -> TlsHandshake<u32> {
    let mut server = Server::new(ConnectionBuilder::new(), 7u32);
    server.handle(Tls(server_config(), ()), FIRST_PEER).1
}

/// An upgrade-capable handshake from the first peer, with its service at hand as a number.
fn upgradable_handshake() -> UpgradableTlsHandshake<u32> {
    let mut server = Server::new(ConnectionBuilder::new(), 7u32);
    server
        .handle_upgradable(Tls(server_config(), ()), FIRST_PEER)
        .1
}

#[test]
fn plain_stream_becomes_a_connection_with_its_peer() {
    let mut server = Server::new(ConnectionBuilder::new(), ());
    let (stream, adaptor, _) = server.handle(Plain("stream"), SECOND_PEER).into_parts();
    assert_eq!(stream, "stream");

    let mut extensions = Extensions::new();
    adaptor.attach(&mut extensions);
    assert_eq!(attached(&extensions), Some(SECOND_PEER));
}

#[test]
fn upgradable_connection_has_the_parts_of_a_plain_one() {
    let mut server = Server::new(ConnectionBuilder::new(), ());
    let (stream, adaptor, builder) = server
        .handle_upgradable(Plain("stream"), FIRST_PEER)
        .into_parts();
    let (plain_stream, plain_adaptor, plain_builder) =
        server.handle(Plain("stream"), FIRST_PEER).into_parts();
    assert_eq!(stream, plain_stream);
    assert!(Arc::ptr_eq(&builder, &plain_builder));

    let mut extensions = Extensions::new();
    adaptor.attach(&mut extensions);
    let mut plain_extensions = Extensions::new();
    plain_adaptor.attach(&mut plain_extensions);
    assert_eq!(attached(&extensions), Some(FIRST_PEER));
    assert_eq!(attached(&extensions), attached(&plain_extensions));
}

#[test]
fn connections_share_settings_and_keep_their_peers() {
    let mut server = Server::new(ConnectionBuilder::new(), ());
    let (_, first, first_builder) = server.handle(Plain(1), FIRST_PEER).into_parts();
    let (_, second, second_builder) = server.handle(Plain(2), SECOND_PEER).into_parts();
    assert!(Arc::ptr_eq(&first_builder, &second_builder));

    let mut extensions = Extensions::new();
    first.attach(&mut extensions);
    assert_eq!(attached(&extensions), Some(FIRST_PEER));
    let mut extensions = Extensions::new();
    second.attach(&mut extensions);
    assert_eq!(attached(&extensions), Some(SECOND_PEER));
}

#[test]
fn service_is_cloned_once_for_every_transport() {
    let (service, clones) = Counted::new();
    let mut server = Server::new(ConnectionBuilder::new(), service);
    assert_eq!(clones.load(Ordering::SeqCst), 0);

    let _plain = server.handle(Plain(()), FIRST_PEER);
    assert_eq!(clones.load(Ordering::SeqCst), 1);

    let _upgradable = server.handle_upgradable(Plain(()), FIRST_PEER);
    assert_eq!(clones.load(Ordering::SeqCst), 2);

    let (_, mut handshake) = server.handle(Tls(server_config(), ()), FIRST_PEER);
    assert_eq!(clones.load(Ordering::SeqCst), 3);
    assert!(matches!(
        handshake.poll::<(), ()>(Poll::Ready(Ok(()))),
        Poll::Ready(Ok(_))
    ));
    assert_eq!(clones.load(Ordering::SeqCst), 3);
}

#[test]
fn attached_peer_replaces_an_earlier_one_and_spares_other_extensions() {
    let mut server = Server::new(ConnectionBuilder::new(), ());
    let (_, first, _) = server.handle(Plain(()), FIRST_PEER).into_parts();
    let (_, second, _) = server.handle(Plain(()), SECOND_PEER).into_parts();

    let mut extensions = Extensions::new();
    extensions.insert(5i32);
    extensions.insert("text");
    assert_eq!(attached(&extensions), None);

    first.attach(&mut extensions);
    assert_eq!(attached(&extensions), Some(FIRST_PEER));
    second.attach(&mut extensions);
    assert_eq!(attached(&extensions), Some(SECOND_PEER));
    second.attach(&mut extensions);
    assert_eq!(attached(&extensions), Some(SECOND_PEER));

    assert_eq!(extensions.get::<i32>(), Some(&5));
    assert_eq!(extensions.get::<&'static str>(), Some(&"text"));
    assert_eq!(extensions.len(), 3);
}

#[test]
fn tls_transport_asks_for_a_handshake_under_its_configuration() {
    let config = server_config();
    let mut server = Server::new(ConnectionBuilder::new(), ());

    let (accept, _) = server.handle(Tls(Arc::clone(&config), "raw"), FIRST_PEER);
    assert!(Arc::ptr_eq(accept.acceptor.config(), &config));
    assert_eq!(accept.stream, "raw");

    let (accept, _) = server.handle_upgradable(Tls(Arc::clone(&config), "raw"), FIRST_PEER);
    assert!(Arc::ptr_eq(accept.acceptor.config(), &config));
    assert_eq!(accept.stream, "raw");
}

#[test]
fn handshake_resolves_into_the_connection_of_the_established_stream() {
    let mut server = Server::new(ConnectionBuilder::new(), ());
    let (_, _, builder) = server.handle(Plain(()), SECOND_PEER).into_parts();
    let (_, mut handshake) = server.handle(Tls(server_config(), ()), FIRST_PEER);

    assert!(matches!(
        handshake.poll::<&str, ()>(Poll::Pending),
        Poll::Pending
    ));
    assert!(matches!(
        handshake.poll::<&str, ()>(Poll::Pending),
        Poll::Pending
    ));
    assert!(!handshake.is_completed());

    let connection = match handshake.poll::<&str, ()>(Poll::Ready(Ok("tls"))) {
        Poll::Ready(Ok(connection)) => connection,
        _ => panic!("the handshake did not resolve"),
    };
    assert!(handshake.is_completed());

    let (stream, adaptor, tls_builder) = connection.into_parts();
    assert_eq!(stream, "tls");
    assert!(Arc::ptr_eq(&tls_builder, &builder));
    let mut extensions = Extensions::new();
    adaptor.attach(&mut extensions);
    assert_eq!(attached(&extensions), Some(FIRST_PEER));
}

#[test]
fn upgradable_handshake_resolves_into_the_connection_of_the_established_stream() {
    let mut handshake = upgradable_handshake();
    assert!(matches!(
        handshake.poll::<&str, ()>(Poll::Pending),
        Poll::Pending
    ));
    assert!(!handshake.is_completed());

    let connection = match handshake.poll::<&str, ()>(Poll::Ready(Ok("tls"))) {
        Poll::Ready(Ok(connection)) => connection,
        _ => panic!("the handshake did not resolve"),
    };
    assert!(handshake.is_completed());

    let (stream, adaptor, _) = connection.into_parts();
    assert_eq!(stream, "tls");
    let mut extensions = Extensions::new();
    adaptor.attach(&mut extensions);
    assert_eq!(attached(&extensions), Some(FIRST_PEER));
}

#[test]
fn failed_handshake_resolves_into_the_same_error() {
    let mut handshake = handshake();
    assert!(matches!(
        handshake.poll::<(), &str>(Poll::Ready(Err("refused"))),
        Poll::Ready(Err("refused"))
    ));
    assert!(!handshake.is_completed());

    let mut upgradable = upgradable_handshake();
    assert!(matches!(
        upgradable.poll::<(), &str>(Poll::Ready(Err("refused"))),
        Poll::Ready(Err("refused"))
    ));
    assert!(!upgradable.is_completed());
}

#[test]
fn completed_handshake_constructs_no_second_connection() {
    let mut handshake = handshake();
    assert!(matches!(
        handshake.poll::<(), ()>(Poll::Ready(Ok(()))),
        Poll::Ready(Ok(_))
    ));
    assert!(matches!(
        handshake.poll::<(), ()>(Poll::Pending),
        Poll::Pending
    ));
    assert!(matches!(
        handshake.poll::<(), ()>(Poll::Ready(Err(()))),
        Poll::Ready(Err(()))
    ));
    assert!(handshake.is_completed());
}

#[test]
fn default_builders_are_alike_and_serve_both_versions() {
    let created = ConnectionBuilder::new();
    let default = ConnectionBuilder::default();
    assert_eq!(
        format!("{:?}", created.as_hyper()),
        format!("{:?}", default.as_hyper())
    );
    assert!(created.as_hyper().is_http1_available());
    assert!(created.as_hyper().is_http2_available());
}

#[test]
fn changed_settings_reach_connections_and_keep_both_versions() {
    let untouched = ConnectionBuilder::new();
    let mut builder = ConnectionBuilder::new();
    builder.http1().title_case_headers(true).keep_alive(false);
    let after_http1 = format!("{:?}", builder.as_hyper());
    assert_ne!(after_http1, format!("{:?}", untouched.as_hyper()));

    builder.http2().max_frame_size(32 * 1024);
    let after_http2 = format!("{:?}", builder.as_hyper());
    assert_ne!(after_http2, after_http1);

    let mut server = Server::new(builder, ());
    let (_, _, served_with) = server.handle(Plain(()), FIRST_PEER).into_parts();
    assert_eq!(format!("{:?}", served_with.as_hyper()), after_http2);
    assert!(served_with.as_hyper().is_http1_available());
    assert!(served_with.as_hyper().is_http2_available());
}

/// The settings of a connection builder as text.
fn settings(builder: &ConnectionBuilder) -> String {
    format!("{:?}", builder.as_hyper())
}

#[test]
fn unused_loans_leave_the_builder_unchanged() {
    let mut builder = ConnectionBuilder::new();
    builder.http1().keep_alive(false);
    builder.http2().max_frame_size(32 * 1024);
    let before = settings(&builder);

    let _ = builder.http1();
    assert_eq!(settings(&builder), before);
    let _ = builder.http2();
    assert_eq!(settings(&builder), before);
}

#[test]
fn http1_and_http2_changes_commute() {
    let mut http1_first = ConnectionBuilder::new();
    http1_first
        .http1()
        .title_case_headers(true)
        .keep_alive(false);
    http1_first
        .http2()
        .max_frame_size(32 * 1024)
        .max_concurrent_streams(3);

    let mut http2_first = ConnectionBuilder::new();
    http2_first
        .http2()
        .max_frame_size(32 * 1024)
        .max_concurrent_streams(3);
    http2_first
        .http1()
        .title_case_headers(true)
        .keep_alive(false);

    assert_eq!(settings(&http1_first), settings(&http2_first));
    assert_ne!(settings(&http1_first), settings(&ConnectionBuilder::new()));
}

#[test]
fn one_version_is_configured_through_the_other_only_when_asked_for() {
    let mut direct = ConnectionBuilder::new();
    direct.http2().max_frame_size(32 * 1024);

    let mut asked = ConnectionBuilder::new();
    asked.http1().http2().max_frame_size(32 * 1024);
    assert_eq!(settings(&asked), settings(&direct));

    let mut not_asked = ConnectionBuilder::new();
    not_asked.http1().max_buf_size(32 * 1024);
    assert_ne!(settings(&not_asked), settings(&direct));
}

#[test]
fn upgradable_connections_share_settings_and_keep_their_peers() {
    let mut server = Server::new(ConnectionBuilder::new(), ());
    let (first_stream, first, first_builder) = server
        .handle_upgradable(Plain(1), FIRST_PEER)
        .into_parts();
    let (second_stream, second, second_builder) = server
        .handle_upgradable(Plain(2), SECOND_PEER)
        .into_parts();
    assert_eq!((first_stream, second_stream), (1, 2));
    assert!(Arc::ptr_eq(&first_builder, &second_builder));

    let mut extensions = Extensions::new();
    first.attach(&mut extensions);
    assert_eq!(attached(&extensions), Some(FIRST_PEER));
    let mut extensions = Extensions::new();
    second.attach(&mut extensions);
    assert_eq!(attached(&extensions), Some(SECOND_PEER));
}

#[test]
fn upgradable_tls_connection_has_the_parts_of_a_plain_one() {
    let mut server = Server::new(ConnectionBuilder::new(), ());
    let (plain_stream, plain_adaptor, plain_builder) = server
        .handle_upgradable(Plain("stream"), FIRST_PEER)
        .into_parts();
    let (_, mut handshake) = server.handle_upgradable(Tls(server_config(), ()), FIRST_PEER);

    let connection = match handshake.poll::<&str, ()>(Poll::Ready(Ok("stream"))) {
        Poll::Ready(Ok(connection)) => connection,
        _ => panic!("the handshake did not resolve"),
    };

    let (stream, adaptor, builder) = connection.into_parts();
    assert_eq!(stream, plain_stream);
    assert!(Arc::ptr_eq(&builder, &plain_builder));
    let mut extensions = Extensions::new();
    adaptor.attach(&mut extensions);
    let mut plain_extensions = Extensions::new();
    plain_adaptor.attach(&mut plain_extensions);
    assert_eq!(attached(&extensions), attached(&plain_extensions));
    assert_eq!(attached(&extensions), Some(FIRST_PEER));
}
