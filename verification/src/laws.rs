//! What holds of a server, its connections and their requests together.

use crate::builder::ConnectionBuilder;
use crate::connection::{Connection, ConnectionView, UpgradableConnection};
use crate::peer::PeerAddr;
use crate::server::ServerView;
use crate::service::AdaptorView;
use crate::tls::{HandshakeView, Poll, Tls, TlsAccept, TlsHandshake, UpgradableTlsHandshake};
use crate::transport::{Plain, Transport, UpgradableTransport};
use http::{Extensions, Request};
use hyper::body::Incoming;
use hyper::server::conn::{http1, http2};
use hyper_util::rt::TokioExecutor;
use hyper_util::server::conn::auto::{Http1Builder, Http2Builder};
use vstd::prelude::*;

verus! {

/// `connection` serves `stream` on behalf of the peer `from`, with the settings of `server` and a
/// clone of its service.
pub open spec fn serves<T, S: Clone>(
    server: ServerView<S>,
    stream: T,
    from: PeerAddr,
    connection: ConnectionView<T, S>,
) -> bool {
    exists|service: S|
        #![trigger vstd::pervasive::strictly_cloned(server.service, service)]
        {
            &&& vstd::pervasive::strictly_cloned(server.service, service)
            &&& connection == ConnectionView::of(stream, from, server.connection_builder, service)
        }
}

/// The request `delivered` to `service` comes from the peer `from` of `server`: it carries that
/// peer's address and is otherwise the `request` that was received, and `service` is a clone of the
/// clone of the server's service that was made for the connection.
pub open spec fn arrives<S: Clone>(
    server: ServerView<S>,
    from: PeerAddr,
    request: Request<Incoming>,
    service: S,
    delivered: Request<Incoming>,
) -> bool {
    &&& crate::outside::attached_peer(crate::outside::request_extensions(delivered)) == Some(from)
    &&& crate::outside::other_extensions(crate::outside::request_extensions(delivered))
        == crate::outside::other_extensions(crate::outside::request_extensions(request))
    &&& crate::outside::bare_request(delivered) == crate::outside::bare_request(request)
    &&& exists|accepted: S|
        #![trigger vstd::pervasive::strictly_cloned(server.service, accepted)]
        {
            &&& vstd::pervasive::strictly_cloned(server.service, accepted)
            &&& vstd::pervasive::strictly_cloned(accepted, service)
        }
}

/// Every request of a connection that serves a peer carries the address of that peer, and nothing
/// else of the request changes.
pub proof fn requests_carry_the_peer<T, S: Clone>(
    server: ServerView<S>,
    stream: T,
    from: PeerAddr,
    connection: ConnectionView<T, S>,
    request: Request<Incoming>,
    service: S,
    delivered: Request<Incoming>,
)
    requires
        serves(server, stream, from, connection),
        connection.service.delivers(request, service, delivered),
    ensures
        arrives(server, from, request, service, delivered),
{
}

/// Handling a plain stream yields a connection over that stream, and every request of it carries
/// the peer address that was handed to the server.
pub proof fn plain_requests_carry_the_handled_peer<T, S: Clone>(
    server: ServerView<S>,
    stream: T,
    from: PeerAddr,
    connection: Connection<T, S>,
    request: Request<Incoming>,
    service: S,
    delivered: Request<Incoming>,
)
    requires
        server.handles(Plain(stream), from, connection),
        connection@.service.delivers(request, service, delivered),
    ensures
        serves(server, stream, from, connection@),
        arrives(server, from, request, service, delivered),
{
    requests_carry_the_peer(server, stream, from, connection@, request, service, delivered);
}

/// Handling a plain stream with upgrades enabled yields a connection over that stream, and every
/// request of it carries the peer address that was handed to the server.
pub proof fn upgradable_requests_carry_the_handled_peer<T: Send, S: Clone>(
    server: ServerView<S>,
    stream: T,
    from: PeerAddr,
    connection: UpgradableConnection<T, S>,
    request: Request<Incoming>,
    service: S,
    delivered: Request<Incoming>,
)
    requires
        server.handles_upgradable(Plain(stream), from, connection),
        connection@.service.delivers(request, service, delivered),
    ensures
        serves(server, stream, from, connection@),
        arrives(server, from, request, service, delivered),
{
    requests_carry_the_peer(server, stream, from, connection@, request, service, delivered);
}

/// Handling a TLS transport asks for a handshake over its stream and under its configuration. If
/// Rustls, after any number of polls, has established `stream`, the handshake resolves into a
/// connection over it, and every request of that connection carries the peer address that was
/// handed to the server.
pub proof fn tls_requests_carry_the_handled_peer<R, T, S: Clone, E>(
    server: ServerView<S>,
    transport: Tls<R>,
    from: PeerAddr,
    handle: (TlsAccept<R>, TlsHandshake<S>),
    polls: Seq<Poll<Result<T, E>>>,
    stream: T,
    connection: ConnectionView<T, S>,
    request: Request<Incoming>,
    service: S,
    delivered: Request<Incoming>,
)
    requires
        server.handles(transport, from, handle),
        handle.1@.admits_all(polls.push(Poll::Ready(Ok(stream)))),
        handle.1@.after(polls).outcome(Poll::<Result<T, E>>::Ready(Ok(stream))) == Poll::<
            Result<ConnectionView<T, S>, E>,
        >::Ready(Ok(connection)),
        connection.service.delivers(request, service, delivered),
    ensures
        transport.accepts(handle.0),
        serves(server, stream, from, connection),
        arrives(server, from, request, service, delivered),
{
    established_stream_becomes_the_connection(handle.1@, polls, stream);
    requests_carry_the_peer(server, stream, from, connection, request, service, delivered);
}

/// Handling a TLS transport with upgrades enabled asks for a handshake over its stream and under
/// its configuration. If Rustls, after any number of polls, has established `stream`, the handshake
/// resolves into a connection over it, and every request of that connection carries the peer
/// address that was handed to the server.
pub proof fn upgradable_tls_requests_carry_the_handled_peer<R: Send, T: Send, S: Clone, E>(
    server: ServerView<S>,
    transport: Tls<R>,
    from: PeerAddr,
    handle: (TlsAccept<R>, UpgradableTlsHandshake<S>),
    polls: Seq<Poll<Result<T, E>>>,
    stream: T,
    connection: ConnectionView<T, S>,
    request: Request<Incoming>,
    service: S,
    delivered: Request<Incoming>,
)
    requires
        server.handles_upgradable(transport, from, handle),
        handle.1@.admits_all(polls.push(Poll::Ready(Ok(stream)))),
        handle.1@.after(polls).outcome(Poll::<Result<T, E>>::Ready(Ok(stream))) == Poll::<
            Result<ConnectionView<T, S>, E>,
        >::Ready(Ok(connection)),
        connection.service.delivers(request, service, delivered),
    ensures
        transport.accepts(handle.0),
        serves(server, stream, from, connection),
        arrives(server, from, request, service, delivered),
{
    established_stream_becomes_the_connection(handle.1@, polls, stream);
    requests_carry_the_peer(server, stream, from, connection, request, service, delivered);
}

/// All requests of one connection carry the same peer address.
pub proof fn requests_of_one_connection_agree<S: Clone>(
    adaptor: AdaptorView<S>,
    first: Request<Incoming>,
    first_service: S,
    first_delivered: Request<Incoming>,
    second: Request<Incoming>,
    second_service: S,
    second_delivered: Request<Incoming>,
)
    requires
        adaptor.delivers(first, first_service, first_delivered),
        adaptor.delivers(second, second_service, second_delivered),
    ensures
        crate::outside::attached_peer(crate::outside::request_extensions(first_delivered))
            == crate::outside::attached_peer(crate::outside::request_extensions(second_delivered)),
{
}

/// The peer that is attached last replaces any peer that was attached before, and extensions of
/// other types survive both.
pub proof fn last_attached_peer_remains<S>(
    earlier: AdaptorView<S>,
    later: AdaptorView<S>,
    before: Extensions,
    between: Extensions,
    after: Extensions,
)
    requires
        earlier.attaches(before, between),
        later.attaches(between, after),
    ensures
        later.attaches(before, after),
{
}

/// Without a success of Rustls, a handshake stays as it was.
pub proof fn unsuccessful_polls_change_nothing<T, S, E>(
    handshake: HandshakeView<S>,
    polls: Seq<Poll<Result<T, E>>>,
)
    requires
        forall|i: int| 0 <= i < polls.len() ==> !(#[trigger] polls[i]).is_success(),
    ensures
        handshake.after(polls) == handshake,
    decreases polls.len(),
{
    if polls.len() > 0 {
        assert forall|i: int| 0 <= i < polls.drop_last().len() implies !(
        #[trigger] polls.drop_last()[i]).is_success() by {
            assert(polls.drop_last()[i] == polls[i]);
        }
        unsuccessful_polls_change_nothing(handshake, polls.drop_last());
        assert(!polls.last().is_success());
    }
}

/// Once a handshake has been told of a success, it is completed for good.
pub proof fn success_completes_for_good<T, S, E>(
    handshake: HandshakeView<S>,
    polls: Seq<Poll<Result<T, E>>>,
    success: int,
)
    requires
        0 <= success < polls.len(),
        polls[success].is_success(),
    ensures
        handshake.after(polls).completed(),
    decreases polls.len(),
{
    if success < polls.len() - 1 {
        assert(polls.drop_last()[success] == polls[success]);
        success_completes_for_good(handshake, polls.drop_last(), success);
    }
}

/// A handshake resolves into at most one connection.
pub proof fn at_most_one_connection<T, S, E>(
    handshake: HandshakeView<S>,
    polls: Seq<Poll<Result<T, E>>>,
    earlier: int,
    later: int,
)
    requires
        handshake.admits_all(polls),
        0 <= earlier < later < polls.len(),
        polls[earlier].is_success(),
    ensures
        !polls[later].is_success(),
{
    assert(polls.take(later)[earlier] == polls[earlier]);
    success_completes_for_good(handshake, polls.take(later), earlier);
    assert(handshake.after(polls.take(later)).admits(polls[later]));
}

/// A handshake resolves into a connection exactly when Rustls succeeds, fails exactly when Rustls
/// fails and with the same error, and is pending exactly while Rustls is.
pub proof fn handshake_resolves_as_rustls_does<T, S, E>(
    handshake: HandshakeView<S>,
    accepted: Poll<Result<T, E>>,
)
    ensures
        handshake.outcome(accepted).is_success() <==> accepted.is_success(),
        handshake.outcome(accepted) is Pending <==> accepted is Pending,
        forall|error: E|
            handshake.outcome(accepted) == Poll::<Result<ConnectionView<T, S>, E>>::Ready(
                Err(error),
            ) <==> accepted == Poll::<Result<T, E>>::Ready(Err(error)),
{
}

/// However often a handshake was polled before, the stream that Rustls establishes becomes a
/// connection with the peer, the settings and the service that the handshake began with.
pub proof fn established_stream_becomes_the_connection<T, S, E>(
    handshake: HandshakeView<S>,
    polls: Seq<Poll<Result<T, E>>>,
    stream: T,
)
    requires
        handshake.admits_all(polls.push(Poll::Ready(Ok(stream)))),
    ensures
        !handshake.completed(),
        handshake.after(polls).outcome(Poll::<Result<T, E>>::Ready(Ok(stream))) == Poll::<
            Result<ConnectionView<T, S>, E>,
        >::Ready(
            Ok(
                ConnectionView::of(
                    stream,
                    handshake.from,
                    handshake.pending.unwrap().0,
                    handshake.pending.unwrap().1,
                ),
            ),
        ),
{
    let all = polls.push(Poll::Ready(Ok(stream)));
    assert(all[polls.len() as int].is_success());
    assert forall|i: int| 0 <= i < polls.len() implies !(#[trigger] polls[i]).is_success() by {
        if polls[i].is_success() {
            assert(all[i] == polls[i]);
            at_most_one_connection(handshake, all, i, polls.len() as int);
        }
    }
    unsuccessful_polls_change_nothing(handshake, polls);
    assert(all.take(polls.len() as int) =~= polls);
    assert(handshake.after(all.take(polls.len() as int)).admits(all[polls.len() as int]));
}

/// TLS changes nothing about the HTTP connection: over the established stream it is the connection
/// that this stream would have become as a plain one.
pub proof fn tls_connection_is_the_plain_connection<R, T, S, E>(
    transport: Tls<R>,
    from: PeerAddr,
    connection_builder: ConnectionBuilder,
    service: S,
    handle: (TlsAccept<R>, TlsHandshake<S>),
    polls: Seq<Poll<Result<T, E>>>,
    stream: T,
    connection: Connection<T, S>,
)
    requires
        Transport::constructs(transport, from, connection_builder, service, handle),
        handle.1@.admits_all(polls.push(Poll::Ready(Ok(stream)))),
        Transport::constructs(
            Plain(stream),
            from,
            connection_builder,
            service,
            connection,
        ),
    ensures
        handle.1@.after(polls).outcome(Poll::<Result<T, E>>::Ready(Ok(stream))) == Poll::<
            Result<ConnectionView<T, S>, E>,
        >::Ready(Ok(connection@)),
{
    established_stream_becomes_the_connection(handle.1@, polls, stream);
}

/// TLS changes nothing about the upgrade-capable HTTP connection either: over the established stream
/// it is the connection that this stream would have become as a plain one.
pub proof fn upgradable_tls_connection_is_the_plain_connection<R: Send, T: Send, S, E>(
    transport: Tls<R>,
    from: PeerAddr,
    connection_builder: ConnectionBuilder,
    service: S,
    handle: (TlsAccept<R>, UpgradableTlsHandshake<S>),
    polls: Seq<Poll<Result<T, E>>>,
    stream: T,
    connection: UpgradableConnection<T, S>,
)
    requires
        UpgradableTransport::constructs(transport, from, connection_builder, service, handle),
        handle.1@.admits_all(polls.push(Poll::Ready(Ok(stream)))),
        UpgradableTransport::constructs(
            Plain(stream),
            from,
            connection_builder,
            service,
            connection,
        ),
    ensures
        handle.1@.after(polls).outcome(Poll::<Result<T, E>>::Ready(Ok(stream))) == Poll::<
            Result<ConnectionView<T, S>, E>,
        >::Ready(Ok(connection@)),
{
    established_stream_becomes_the_connection(handle.1@, polls, stream);
}

/// Upgrade support changes nothing about what a plain stream is served with.
pub proof fn upgradable_connection_has_the_same_parts<T: Send, S>(
    stream: T,
    from: PeerAddr,
    connection_builder: ConnectionBuilder,
    service: S,
    connection: Connection<T, S>,
    upgradable: UpgradableConnection<T, S>,
)
    requires
        Transport::constructs(Plain(stream), from, connection_builder, service, connection),
        UpgradableTransport::constructs(
            Plain(stream),
            from,
            connection_builder,
            service,
            upgradable,
        ),
    ensures
        upgradable@ == connection@,
{
}

/// Upgrade support changes nothing about the handshake of a TLS transport, nor about what it
/// resolves into.
pub proof fn upgradable_handshake_has_the_same_parts<T: Send, S>(
    transport: Tls<T>,
    from: PeerAddr,
    connection_builder: ConnectionBuilder,
    service: S,
    handle: (TlsAccept<T>, TlsHandshake<S>),
    upgradable: (TlsAccept<T>, UpgradableTlsHandshake<S>),
)
    requires
        Transport::constructs(transport, from, connection_builder, service, handle),
        UpgradableTransport::constructs(transport, from, connection_builder, service, upgradable),
    ensures
        upgradable.0.stream == handle.0.stream,
        crate::outside::acceptor_config(upgradable.0.acceptor)
            == crate::outside::acceptor_config(handle.0.acceptor),
        upgradable.1@ == handle.1@,
{
}

/// Any two connections that a server serves, over plain streams or over TLS and with or without
/// upgrade support, share its settings, and each keeps its own stream and its own peer.
pub proof fn served_connections_share_settings_and_keep_their_peers<T, U, S: Clone>(
    server: ServerView<S>,
    first_stream: T,
    first_from: PeerAddr,
    first: ConnectionView<T, S>,
    second_stream: U,
    second_from: PeerAddr,
    second: ConnectionView<U, S>,
)
    requires
        serves(server, first_stream, first_from, first),
        serves(server, second_stream, second_from, second),
    ensures
        first.connection_builder == server.connection_builder,
        second.connection_builder == server.connection_builder,
        first.stream == first_stream,
        second.stream == second_stream,
        first.service.peer_addr == first_from,
        second.service.peer_addr == second_from,
{
}

/// Connections that plain streams become share the settings of the server, and each keeps its own
/// stream and its own peer.
pub proof fn connections_share_settings_and_keep_their_peers<T, U, S: Clone>(
    server: ServerView<S>,
    first_stream: T,
    first_from: PeerAddr,
    first: Connection<T, S>,
    second_stream: U,
    second_from: PeerAddr,
    second: Connection<U, S>,
)
    requires
        server.handles(Plain(first_stream), first_from, first),
        server.handles(Plain(second_stream), second_from, second),
    ensures
        first@.connection_builder == server.connection_builder,
        second@.connection_builder == server.connection_builder,
        first@.stream == first_stream,
        second@.stream == second_stream,
        first@.service.peer_addr == first_from,
        second@.service.peer_addr == second_from,
{
}

/// Upgrade-capable connections that plain streams become share the settings of the server, and
/// each keeps its own stream and its own peer.
pub proof fn upgradable_connections_share_settings_and_keep_their_peers<
    T: Send,
    U: Send,
    S: Clone,
>(
    server: ServerView<S>,
    first_stream: T,
    first_from: PeerAddr,
    first: UpgradableConnection<T, S>,
    second_stream: U,
    second_from: PeerAddr,
    second: UpgradableConnection<U, S>,
)
    requires
        server.handles_upgradable(Plain(first_stream), first_from, first),
        server.handles_upgradable(Plain(second_stream), second_from, second),
    ensures
        first@.connection_builder == server.connection_builder,
        second@.connection_builder == server.connection_builder,
        first@.stream == first_stream,
        second@.stream == second_stream,
        first@.service.peer_addr == first_from,
        second@.service.peer_addr == second_from,
{
}

/// The settings as HTTP/1 configuration leaves them are those that every connection of the server is
/// served with. The HTTP/2 settings among them are those from before, unless the HTTP/1 builder was
/// asked for them.
pub proof fn http1_changes_reach_connections<T, S: Clone>(
    before: ConnectionBuilder,
    settings: Http1Builder<'_, TokioExecutor>,
    connection_builder: ConnectionBuilder,
    server: ServerView<S>,
    stream: T,
    from: PeerAddr,
    connection: ConnectionView<T, S>,
)
    requires
        before.lends_http1(settings, connection_builder),
        server.connection_builder == connection_builder,
        serves(server, stream, from, connection),
    ensures
        connection.connection_builder@ == crate::outside::http1_returned(settings),
        !crate::outside::asks_for_http2(settings) ==> crate::outside::http2_settings(
            connection.connection_builder@,
        ) == crate::outside::http2_settings(before@),
{
}

/// The settings as HTTP/2 configuration leaves them are those that every connection of the server is
/// served with. The HTTP/1 settings among them are those from before, unless the HTTP/2 builder was
/// asked for them.
pub proof fn http2_changes_reach_connections<T, S: Clone>(
    before: ConnectionBuilder,
    settings: Http2Builder<'_, TokioExecutor>,
    connection_builder: ConnectionBuilder,
    server: ServerView<S>,
    stream: T,
    from: PeerAddr,
    connection: ConnectionView<T, S>,
)
    requires
        before.lends_http2(settings, connection_builder),
        server.connection_builder == connection_builder,
        serves(server, stream, from, connection),
    ensures
        connection.connection_builder@ == crate::outside::http2_returned(settings),
        !crate::outside::asks_for_http1(settings) ==> crate::outside::http1_settings(
            connection.connection_builder@,
        ) == crate::outside::http1_settings(before@),
{
}

/// HTTP/1 and HTTP/2 configuration commute: where each changes the settings of its own version only,
/// by the same changes, the order of the two does not matter.
pub proof fn http1_and_http2_changes_commute(
    before: ConnectionBuilder,
    http1_change: spec_fn(http1::Builder) -> http1::Builder,
    http2_change: spec_fn(http2::Builder<TokioExecutor>) -> http2::Builder<TokioExecutor>,
    http1_first: Http1Builder<'_, TokioExecutor>,
    after_http1: ConnectionBuilder,
    http2_second: Http2Builder<'_, TokioExecutor>,
    after_http1_http2: ConnectionBuilder,
    http2_first: Http2Builder<'_, TokioExecutor>,
    after_http2: ConnectionBuilder,
    http1_second: Http1Builder<'_, TokioExecutor>,
    after_http2_http1: ConnectionBuilder,
)
    requires
        before.lends_http1(http1_first, after_http1),
        after_http1.lends_http2(http2_second, after_http1_http2),
        before.lends_http2(http2_first, after_http2),
        after_http2.lends_http1(http1_second, after_http2_http1),
        !crate::outside::asks_for_http2(http1_first),
        !crate::outside::asks_for_http1(http2_second),
        !crate::outside::asks_for_http1(http2_first),
        !crate::outside::asks_for_http2(http1_second),
        crate::outside::http1_settings(after_http1@) == http1_change(
            crate::outside::http1_settings(before@),
        ),
        crate::outside::http2_settings(after_http1_http2@) == http2_change(
            crate::outside::http2_settings(after_http1@),
        ),
        crate::outside::http2_settings(after_http2@) == http2_change(
            crate::outside::http2_settings(before@),
        ),
        crate::outside::http1_settings(after_http2_http1@) == http1_change(
            crate::outside::http1_settings(after_http2@),
        ),
    ensures
        after_http1_http2.same_settings(after_http2_http1),
        crate::outside::http1_settings(after_http1_http2@) == http1_change(
            crate::outside::http1_settings(before@),
        ),
        crate::outside::http2_settings(after_http1_http2@) == http2_change(
            crate::outside::http2_settings(before@),
        ),
{
}

/// All connection builders with default settings are alike.
pub proof fn default_builders_are_alike(first: ConnectionBuilder, second: ConnectionBuilder)
    requires
        first.is_default(),
        second.is_default(),
    ensures
        first@ == second@,
{
    let executor = vstd::pervasive::arbitrary::<TokioExecutor>();
    assert(first@ == crate::outside::default_builder(executor));
    assert(second@ == crate::outside::default_builder(executor));
}

/// A plain stream that a server handles is served as it is, for every peer: over that stream,
/// from that peer, with the settings of the server and a clone of its service. Whatever request
/// comes in, a clone of that clone gets it with the address of that peer attached, and with its
/// other extensions, its head and its body unchanged.
pub proof fn handled_stream_is_served<T, S: Clone>(
    server: ServerView<S>,
    stream: T,
    from: PeerAddr,
    connection: Connection<T, S>,
    request: Request<Incoming>,
    service: S,
    delivered: Request<Incoming>,
)
    requires
        server.handles(Plain(stream), from, connection),
        connection@.service.delivers(request, service, delivered),
    ensures
        connection@.stream == stream,
        connection@.service.peer_addr == from,
        connection@.connection_builder == server.connection_builder,
        vstd::pervasive::strictly_cloned(server.service, connection@.service.service),
        vstd::pervasive::strictly_cloned(connection@.service.service, service),
        crate::outside::attached_peer(crate::outside::request_extensions(delivered)) == Some(from),
        crate::outside::other_extensions(crate::outside::request_extensions(delivered))
            == crate::outside::other_extensions(crate::outside::request_extensions(request)),
        crate::outside::bare_request(delivered) == crate::outside::bare_request(request),
{
}

/// A plain stream that a server handles with upgrades enabled is served as it is, for every peer: over that stream,
/// from that peer, with the settings of the server and a clone of its service. Whatever request
/// comes in, a clone of that clone gets it with the address of that peer attached, and with its
/// other extensions, its head and its body unchanged.
pub proof fn handled_upgradable_stream_is_served<T: Send, S: Clone>(
    server: ServerView<S>,
    stream: T,
    from: PeerAddr,
    connection: UpgradableConnection<T, S>,
    request: Request<Incoming>,
    service: S,
    delivered: Request<Incoming>,
)
    requires
        server.handles_upgradable(Plain(stream), from, connection),
        connection@.service.delivers(request, service, delivered),
    ensures
        connection@.stream == stream,
        connection@.service.peer_addr == from,
        connection@.connection_builder == server.connection_builder,
        vstd::pervasive::strictly_cloned(server.service, connection@.service.service),
        vstd::pervasive::strictly_cloned(connection@.service.service, service),
        crate::outside::attached_peer(crate::outside::request_extensions(delivered)) == Some(from),
        crate::outside::other_extensions(crate::outside::request_extensions(delivered))
            == crate::outside::other_extensions(crate::outside::request_extensions(request)),
        crate::outside::bare_request(delivered) == crate::outside::bare_request(request),
{
}

/// The peer of the adaptor is the one that a request carries afterwards, whichever it carried
/// before, and extensions of other types stay as they are.
pub proof fn attaching_replaces_the_peer_alone<S>(
    adaptor: AdaptorView<S>,
    before: Extensions,
    after: Extensions,
)
    requires
        adaptor.attaches(before, after),
    ensures
        crate::outside::attached_peer(after) == Some(adaptor.peer_addr),
        crate::outside::other_extensions(after) == crate::outside::other_extensions(before),
{
}

/// Whatever the adaptor is asked to deliver, a clone of its service gets the request with the
/// address of its peer attached, and with other extensions, head and body unchanged.
pub proof fn delivering_attaches_the_peer_alone<S: Clone>(
    adaptor: AdaptorView<S>,
    request: Request<Incoming>,
    service: S,
    delivered: Request<Incoming>,
)
    requires
        adaptor.delivers(request, service, delivered),
    ensures
        vstd::pervasive::strictly_cloned(adaptor.service, service),
        crate::outside::attached_peer(crate::outside::request_extensions(delivered)) == Some(
            adaptor.peer_addr,
        ),
        crate::outside::other_extensions(crate::outside::request_extensions(delivered))
            == crate::outside::other_extensions(crate::outside::request_extensions(request)),
        crate::outside::bare_request(delivered) == crate::outside::bare_request(request),
{
}

/// What is known of a poll is what it is: a value, an error, or neither yet.
pub proof fn poll_keeps_what_is_known_of_it<C: View, E>(polled: Poll<Result<C, E>>)
    ensures
        polled is Pending <==> polled@ is Pending,
        forall|error: E|
            polled == Poll::<Result<C, E>>::Ready(Err(error)) <==> polled@ == Poll::<
                Result<C::V, E>,
            >::Ready(Err(error)),
        forall|known: C::V|
            (polled matches Poll::Ready(Ok(value)) && value@ == known) <==> polled@ == Poll::<
                Result<C::V, E>,
            >::Ready(Ok(known)),
{
}

/// A handshake is completed exactly when the settings and the service it was made with are gone,
/// whoever its peer is.
pub proof fn completed_handshake_has_nothing_left<S>(handshake: HandshakeView<S>)
    ensures
        handshake.completed() <==> handshake.pending is None,
{
}

/// A handshake can be told of a failure or of no progress at any time, and of a success as long as
/// it still holds settings and a service, whoever its peer is.
pub proof fn handshake_admits_all_but_a_second_success<T, S, E>(
    handshake: HandshakeView<S>,
    stream: T,
    error: E,
)
    ensures
        handshake.admits(Poll::<Result<T, E>>::Pending),
        handshake.admits(Poll::<Result<T, E>>::Ready(Err(error))),
        handshake.admits(Poll::<Result<T, E>>::Ready(Ok(stream))) <==> handshake.pending is Some,
{
}

/// Completed means that a success was reported, and nothing else: whatever a handshake is made with
/// and whatever it has been told since, in any order, it is completed if and only if a success was
/// among it.
pub proof fn completed_means_a_success_was_reported<T, S, E>(
    from: PeerAddr,
    connection_builder: ConnectionBuilder,
    service: S,
    polls: Seq<Poll<Result<T, E>>>,
)
    ensures
        HandshakeView::of(from, connection_builder, service).after(polls).completed() <==> exists|
            i: int,
        |
            0 <= i < polls.len() && ((#[trigger] polls[i]) matches Poll::Ready(Ok(_))),
{
    let handshake = HandshakeView::of(from, connection_builder, service);
    if exists|i: int| 0 <= i < polls.len() && ((#[trigger] polls[i]) matches Poll::Ready(Ok(_))) {
        let success = choose|i: int|
            0 <= i < polls.len() && ((#[trigger] polls[i]) matches Poll::Ready(Ok(_)));
        success_completes_for_good(handshake, polls, success);
    } else {
        unsuccessful_polls_change_nothing(handshake, polls);
    }
}

/// A success gives a connection made of the established stream and of all that the handshake held,
/// which is then left with its peer alone.
pub proof fn success_hands_over_all_that_was_held<T, S, E>(
    handshake: HandshakeView<S>,
    stream: T,
    polled: Poll<Result<Connection<T, S>, E>>,
    upgradable: Poll<Result<UpgradableConnection<T, S>, E>>,
    next: HandshakeView<S>,
)
    requires
        handshake.pending is Some,
        polled@ == handshake.outcome(Poll::<Result<T, E>>::Ready(Ok(stream))),
        upgradable@ == handshake.outcome(Poll::<Result<T, E>>::Ready(Ok(stream))),
        next == handshake.next(Poll::<Result<T, E>>::Ready(Ok(stream))),
    ensures
        polled matches Poll::Ready(Ok(connection)) && connection@.stream == stream
            && connection@.service.peer_addr == handshake.from && Some(
            (connection@.connection_builder, connection@.service.service),
        ) == handshake.pending,
        upgradable matches Poll::Ready(Ok(connection)) && connection@.stream == stream
            && connection@.service.peer_addr == handshake.from && Some(
            (connection@.connection_builder, connection@.service.service),
        ) == handshake.pending,
        next.from == handshake.from,
        next.pending is None,
{
    poll_keeps_what_is_known_of_it(polled);
    poll_keeps_what_is_known_of_it(upgradable);
}

/// Without a success there is no connection: a failure is passed on as it is, no progress stays no
/// progress, and the handshake keeps all that it holds.
pub proof fn without_success_all_is_kept<T, S, E>(
    handshake: HandshakeView<S>,
    accepted: Poll<Result<T, E>>,
    polled: Poll<Result<Connection<T, S>, E>>,
    upgradable: Poll<Result<UpgradableConnection<T, S>, E>>,
    next: HandshakeView<S>,
)
    requires
        !(accepted matches Poll::Ready(Ok(_))),
        polled@ == handshake.outcome(accepted),
        upgradable@ == handshake.outcome(accepted),
        next == handshake.next(accepted),
    ensures
        polled is Pending <==> accepted is Pending,
        upgradable is Pending <==> accepted is Pending,
        forall|error: E|
            accepted == Poll::<Result<T, E>>::Ready(Err(error)) ==> polled == Poll::<
                Result<Connection<T, S>, E>,
            >::Ready(Err(error)) && upgradable == Poll::<
                Result<UpgradableConnection<T, S>, E>,
            >::Ready(Err(error)),
        next.from == handshake.from,
        next.pending == handshake.pending,
{
    poll_keeps_what_is_known_of_it(polled);
    poll_keeps_what_is_known_of_it(upgradable);
}

/// For every peer, a TLS handshake that comes from handling a transport is over the stream and under the
/// configuration of that transport. It is still to be resolved, with the peer and the settings that
/// the server was handed and with a clone of its service. As long as Rustls has not succeeded it
/// stays so, and can be told anything that Rustls reports.
pub proof fn new_tls_handshake_awaits_rustls<R, T, S: Clone, E>(
    server: ServerView<S>,
    transport: Tls<R>,
    from: PeerAddr,
    handle: (TlsAccept<R>, TlsHandshake<S>),
    polls: Seq<Poll<Result<T, E>>>,
    accepted: Poll<Result<T, E>>,
)
    requires
        server.handles(transport, from, handle),
        forall|i: int| 0 <= i < polls.len() ==> !((#[trigger] polls[i]) matches Poll::Ready(Ok(_))),
    ensures
        crate::outside::acceptor_config(handle.0.acceptor) == transport.0,
        handle.0.stream == transport.1,
        handle.1@.from == from,
        handle.1@.pending is Some,
        handle.1@.pending.unwrap().0 == server.connection_builder,
        vstd::pervasive::strictly_cloned(server.service, handle.1@.pending.unwrap().1),
        !handle.1@.completed(),
        handle.1@.after(polls) == handle.1@,
        handle.1@.after(polls).admits(accepted),
{
    unsuccessful_polls_change_nothing(handle.1@, polls);
}

/// Once Rustls reports that it has established `stream`, however often it was asked before, the
/// handshake of a handled transport can be told so and then holds a connection: over `stream`, from
/// the peer that the server was handed, with the settings of the server and a clone of its service.
pub proof fn established_tls_stream_is_served<R, T, S: Clone, E>(
    server: ServerView<S>,
    transport: Tls<R>,
    from: PeerAddr,
    handle: (TlsAccept<R>, TlsHandshake<S>),
    polls: Seq<Poll<Result<T, E>>>,
    stream: T,
    polled: Poll<Result<Connection<T, S>, E>>,
)
    requires
        server.handles(transport, from, handle),
        forall|i: int| 0 <= i < polls.len() ==> !((#[trigger] polls[i]) matches Poll::Ready(Ok(_))),
        polled@ == handle.1@.after(polls).outcome(Poll::<Result<T, E>>::Ready(Ok(stream))),
    ensures
        handle.1@.after(polls).admits(Poll::<Result<T, E>>::Ready(Ok(stream))),
        polled matches Poll::Ready(Ok(connection)) && connection@.stream == stream
            && connection@.service.peer_addr == from && connection@.connection_builder
            == server.connection_builder && vstd::pervasive::strictly_cloned(
            server.service,
            connection@.service.service,
        ),
{
    let accepted = Poll::<Result<T, E>>::Ready(Ok(stream));
    new_tls_handshake_awaits_rustls(server, transport, from, handle, polls, accepted);
    poll_keeps_what_is_known_of_it(polled);
}

/// For every peer, an upgrade-capable TLS handshake that comes from handling a transport is over the stream and under the
/// configuration of that transport. It is still to be resolved, with the peer and the settings that
/// the server was handed and with a clone of its service. As long as Rustls has not succeeded it
/// stays so, and can be told anything that Rustls reports.
pub proof fn new_upgradable_tls_handshake_awaits_rustls<R: Send, T: Send, S: Clone, E>(
    server: ServerView<S>,
    transport: Tls<R>,
    from: PeerAddr,
    handle: (TlsAccept<R>, UpgradableTlsHandshake<S>),
    polls: Seq<Poll<Result<T, E>>>,
    accepted: Poll<Result<T, E>>,
)
    requires
        server.handles_upgradable(transport, from, handle),
        forall|i: int| 0 <= i < polls.len() ==> !((#[trigger] polls[i]) matches Poll::Ready(Ok(_))),
    ensures
        crate::outside::acceptor_config(handle.0.acceptor) == transport.0,
        handle.0.stream == transport.1,
        handle.1@.from == from,
        handle.1@.pending is Some,
        handle.1@.pending.unwrap().0 == server.connection_builder,
        vstd::pervasive::strictly_cloned(server.service, handle.1@.pending.unwrap().1),
        !handle.1@.completed(),
        handle.1@.after(polls) == handle.1@,
        handle.1@.after(polls).admits(accepted),
{
    unsuccessful_polls_change_nothing(handle.1@, polls);
}

/// Once Rustls reports that it has established `stream`, however often it was asked before, the
/// handshake of a handled transport can be told so and then holds a connection: over `stream`, from
/// the peer that the server was handed, with the settings of the server and a clone of its service.
pub proof fn established_upgradable_tls_stream_is_served<R: Send, T: Send, S: Clone, E>(
    server: ServerView<S>,
    transport: Tls<R>,
    from: PeerAddr,
    handle: (TlsAccept<R>, UpgradableTlsHandshake<S>),
    polls: Seq<Poll<Result<T, E>>>,
    stream: T,
    polled: Poll<Result<UpgradableConnection<T, S>, E>>,
)
    requires
        server.handles_upgradable(transport, from, handle),
        forall|i: int| 0 <= i < polls.len() ==> !((#[trigger] polls[i]) matches Poll::Ready(Ok(_))),
        polled@ == handle.1@.after(polls).outcome(Poll::<Result<T, E>>::Ready(Ok(stream))),
    ensures
        handle.1@.after(polls).admits(Poll::<Result<T, E>>::Ready(Ok(stream))),
        polled matches Poll::Ready(Ok(connection)) && connection@.stream == stream
            && connection@.service.peer_addr == from && connection@.connection_builder
            == server.connection_builder && vstd::pervasive::strictly_cloned(
            server.service,
            connection@.service.service,
        ),
{
    let accepted = Poll::<Result<T, E>>::Ready(Ok(stream));
    new_upgradable_tls_handshake_awaits_rustls(server, transport, from, handle, polls, accepted);
    poll_keeps_what_is_known_of_it(polled);
}

/// Whatever a transport becomes, it is constructed for the peer that the server was handed, with the
/// settings of the server and a clone of its service.
pub proof fn handling_constructs_with_the_parts_of_the_server<T: Transport<S>, S: Clone>(
    server: ServerView<S>,
    stream: T,
    from: PeerAddr,
    handle: T::Handle,
)
    requires
        server.handles(stream, from, handle),
    ensures
        exists|service: S|
            #![trigger vstd::pervasive::strictly_cloned(server.service, service)]
            {
                &&& vstd::pervasive::strictly_cloned(server.service, service)
                &&& stream.constructs(from, server.connection_builder, service, handle)
            },
{
}

/// Whatever a transport becomes with upgrades enabled, it is constructed for the peer that the
/// server was handed, with the settings of the server and a clone of its service.
pub proof fn upgradable_handling_constructs_with_the_parts_of_the_server<
    T: UpgradableTransport<S>,
    S: Clone,
>(server: ServerView<S>, stream: T, from: PeerAddr, handle: T::Handle)
    requires
        server.handles_upgradable(stream, from, handle),
    ensures
        exists|service: S|
            #![trigger vstd::pervasive::strictly_cloned(server.service, service)]
            {
                &&& vstd::pervasive::strictly_cloned(server.service, service)
                &&& stream.constructs(from, server.connection_builder, service, handle)
            },
{
}

/// The connections of a plain stream, with upgrade support or without, are made of exactly what they
/// were constructed from, whoever the peer is.
pub proof fn constructed_connection_keeps_its_parts<T: Send, S>(
    stream: T,
    from: PeerAddr,
    connection_builder: ConnectionBuilder,
    service: S,
    connection: Connection<T, S>,
    upgradable: UpgradableConnection<T, S>,
)
    requires
        Transport::constructs(Plain(stream), from, connection_builder, service, connection),
        UpgradableTransport::constructs(
            Plain(stream),
            from,
            connection_builder,
            service,
            upgradable,
        ),
    ensures
        connection@.stream == stream,
        connection@.service.peer_addr == from,
        connection@.service.service == service,
        connection@.connection_builder == connection_builder,
        upgradable@.stream == stream,
        upgradable@.service.peer_addr == from,
        upgradable@.service.service == service,
        upgradable@.connection_builder == connection_builder,
{
}

/// The handshakes of a TLS transport, with upgrade support or without, are over its stream and under
/// its configuration, and hold exactly what they were constructed from, whoever the peer is.
pub proof fn constructed_handshake_keeps_its_parts<T: Send, S>(
    transport: Tls<T>,
    from: PeerAddr,
    connection_builder: ConnectionBuilder,
    service: S,
    handle: (TlsAccept<T>, TlsHandshake<S>),
    upgradable: (TlsAccept<T>, UpgradableTlsHandshake<S>),
)
    requires
        Transport::constructs(transport, from, connection_builder, service, handle),
        UpgradableTransport::constructs(transport, from, connection_builder, service, upgradable),
    ensures
        crate::outside::acceptor_config(handle.0.acceptor) == transport.0,
        handle.0.stream == transport.1,
        handle.1@.from == from,
        handle.1@.pending == Some((connection_builder, service)),
        crate::outside::acceptor_config(upgradable.0.acceptor) == transport.0,
        upgradable.0.stream == transport.1,
        upgradable.1@.from == from,
        upgradable.1@.pending == Some((connection_builder, service)),
{
}

/// A loan for HTTP/1 configuration holds the builder that it was taken of, and what it leaves is
/// what that builder then is. Unless it asks for the HTTP/2 settings, these stay as they are.
pub proof fn http1_loan_returns_the_builder(
    before: ConnectionBuilder,
    settings: Http1Builder<'_, TokioExecutor>,
    after: ConnectionBuilder,
)
    requires
        before.lends_http1(settings, after),
    ensures
        crate::outside::http1_borrowed(settings) == before@,
        crate::outside::http1_returned(settings) == after@,
        crate::outside::asks_for_http2(settings) || crate::outside::http2_settings(after@)
            == crate::outside::http2_settings(before@),
{
}

/// A loan for HTTP/2 configuration holds the builder that it was taken of, and what it leaves is
/// what that builder then is. Unless it asks for the HTTP/1 settings, these stay as they are.
pub proof fn http2_loan_returns_the_builder(
    before: ConnectionBuilder,
    settings: Http2Builder<'_, TokioExecutor>,
    after: ConnectionBuilder,
)
    requires
        before.lends_http2(settings, after),
    ensures
        crate::outside::http2_borrowed(settings) == before@,
        crate::outside::http2_returned(settings) == after@,
        crate::outside::asks_for_http1(settings) || crate::outside::http1_settings(after@)
            == crate::outside::http1_settings(before@),
{
}

/// A builder with default settings is the one that Hyper makes around a Tokio executor.
pub proof fn default_settings_are_those_of_hyper(
    builder: ConnectionBuilder,
    executor: TokioExecutor,
)
    requires
        builder.is_default(),
    ensures
        builder@ == crate::outside::default_builder(executor),
{
}

/// To serve both versions is to have HTTP/1 and HTTP/2 available.
pub proof fn both_versions_are_available(builder: ConnectionBuilder)
    requires
        builder.serves_both_versions(),
    ensures
        crate::outside::http1_available(builder@),
        crate::outside::http2_available(builder@),
{
}

} // verus!
