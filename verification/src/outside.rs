//! What this library believes, without proof, of the crates that it calls.
//!
//! Each type of another crate that the library carries through is declared here, and each call into
//! another crate stands behind one function of this module whose contract says what the call does.

use crate::peer::{ConnectionInfo, PeerAddr};
use http::{Extensions, Request};
use hyper::body::Incoming;
use hyper::server::conn::{http1, http2};
use hyper_util::rt::TokioExecutor;
use hyper_util::server::conn::auto::{Builder, Http1Builder, Http2Builder};
use rustls::ServerConfig;
use std::sync::Arc;
use tokio_rustls::TlsAcceptor;
use vstd::prelude::*;

verus! {

/// `http::Extensions`, the values of other types that a request carries, at most one of each type.
#[verifier::external_type_specification]
#[verifier::external_body]
pub struct ExExtensions(http::Extensions);

/// `http::Request`, an HTTP request with a body of type `T`.
#[verifier::external_type_specification]
#[verifier::external_body]
#[verifier::reject_recursive_types(T)]
pub struct ExRequest<T>(http::Request<T>);

/// `hyper::body::Incoming`, the body of a request as Hyper receives it.
#[verifier::external_type_specification]
#[verifier::external_body]
pub struct ExIncoming(hyper::body::Incoming);

/// `hyper_util::rt::TokioExecutor`, the executor that spawns on Tokio.
#[verifier::external_type_specification]
#[verifier::external_body]
pub struct ExTokioExecutor(hyper_util::rt::TokioExecutor);

/// `hyper_util::server::conn::auto::Builder`, the settings of connections that tell HTTP/1 and
/// HTTP/2 apart by themselves.
#[verifier::external_type_specification]
#[verifier::external_body]
#[verifier::reject_recursive_types(E)]
pub struct ExBuilder<E>(hyper_util::server::conn::auto::Builder<E>);

/// `hyper_util::server::conn::auto::Http1Builder`, a borrowed builder whose HTTP/1 settings can be
/// changed.
#[verifier::external_type_specification]
#[verifier::external_body]
#[verifier::reject_recursive_types(E)]
pub struct ExHttp1Builder<'a, E>(hyper_util::server::conn::auto::Http1Builder<'a, E>);

/// `hyper_util::server::conn::auto::Http2Builder`, a borrowed builder whose HTTP/2 settings can be
/// changed.
#[verifier::external_type_specification]
#[verifier::external_body]
#[verifier::reject_recursive_types(E)]
pub struct ExHttp2Builder<'a, E>(hyper_util::server::conn::auto::Http2Builder<'a, E>);

/// `hyper::server::conn::http1::Builder`, the settings of HTTP/1 connections.
#[verifier::external_type_specification]
#[verifier::external_body]
pub struct ExHttp1Settings(hyper::server::conn::http1::Builder);

/// `hyper::server::conn::http2::Builder`, the settings of HTTP/2 connections.
#[verifier::external_type_specification]
#[verifier::external_body]
#[verifier::reject_recursive_types(E)]
pub struct ExHttp2Settings<E>(hyper::server::conn::http2::Builder<E>);

/// `rustls::ServerConfig`, the configuration of the server side of TLS.
#[verifier::external_type_specification]
#[verifier::external_body]
pub struct ExServerConfig(rustls::ServerConfig);

/// `tokio_rustls::TlsAcceptor`, which performs TLS handshakes under one server configuration.
#[verifier::external_type_specification]
#[verifier::external_body]
pub struct ExTlsAcceptor(tokio_rustls::TlsAcceptor);

/// The peer address in the [`ConnectionInfo`] that the extensions hold, that is, in what
/// `Extensions::get::<ConnectionInfo>` returns for them.
pub uninterp spec fn attached_peer(extensions: Extensions) -> Option<PeerAddr>;

/// Extensions that hold the same values of every type but [`ConnectionInfo`], and no value of that
/// one.
pub uninterp spec fn other_extensions(extensions: Extensions) -> Extensions;

/// The extensions of the request, that is, what `Request::extensions` returns for it.
pub uninterp spec fn request_extensions(request: Request<Incoming>) -> Extensions;

/// The request with its extensions taken out: the same method, URI, version, headers and body.
pub uninterp spec fn bare_request(request: Request<Incoming>) -> Request<Incoming>;

/// The builder that `Builder::new` makes around the executor.
pub uninterp spec fn default_builder(executor: TokioExecutor) -> Builder<TokioExecutor>;

/// What `Builder::is_http1_available` returns: connections of the builder can speak HTTP/1.
pub uninterp spec fn http1_available(builder: Builder<TokioExecutor>) -> bool;

/// What `Builder::is_http2_available` returns: connections of the builder can speak HTTP/2.
pub uninterp spec fn http2_available(builder: Builder<TokioExecutor>) -> bool;

/// The settings that the builder serves HTTP/1 connections with, its field `http1`.
pub uninterp spec fn http1_settings(builder: Builder<TokioExecutor>) -> http1::Builder;

/// The settings that the builder serves HTTP/2 connections with, its field `http2`.
pub uninterp spec fn http2_settings(builder: Builder<TokioExecutor>) -> http2::Builder<
    TokioExecutor,
>;

/// `Http1Builder::http2` is called in the course of the loan, which lends the builder on for changes
/// of its HTTP/2 settings.
pub uninterp spec fn asks_for_http2(settings: Http1Builder<'_, TokioExecutor>) -> bool;

/// `Http2Builder::http1` is called in the course of the loan, which lends the builder on for changes
/// of its HTTP/1 settings.
pub uninterp spec fn asks_for_http1(settings: Http2Builder<'_, TokioExecutor>) -> bool;

/// The builder that is borrowed for changes of its HTTP/1 settings, as it stands at present.
pub uninterp spec fn http1_borrowed(settings: Http1Builder<'_, TokioExecutor>) -> Builder<
    TokioExecutor,
>;

/// The builder that is borrowed for changes of its HTTP/1 settings, as it is when the loan ends.
pub uninterp spec fn http1_returned(settings: Http1Builder<'_, TokioExecutor>) -> Builder<
    TokioExecutor,
>;

/// The builder that is borrowed for changes of its HTTP/2 settings, as it stands at present.
pub uninterp spec fn http2_borrowed(settings: Http2Builder<'_, TokioExecutor>) -> Builder<
    TokioExecutor,
>;

/// The builder that is borrowed for changes of its HTTP/2 settings, as it is when the loan ends.
pub uninterp spec fn http2_returned(settings: Http2Builder<'_, TokioExecutor>) -> Builder<
    TokioExecutor,
>;

/// The configuration that the acceptor performs handshakes under, that is, what
/// `TlsAcceptor::config` returns for it.
pub uninterp spec fn acceptor_config(acceptor: TlsAcceptor) -> Arc<ServerConfig>;

/// Calls `Extensions::insert`, which stores the value and hands back the one of the same type that
/// it replaces. Values of other types stay as they are.
#[verifier::external_body]
pub(crate) fn insert_info(extensions: &mut Extensions, info: ConnectionInfo) -> (replaced: Option<
    ConnectionInfo,
>)
    ensures
        attached_peer(*final(extensions)) == Some(info@),
        other_extensions(*final(extensions)) == other_extensions(*old(extensions)),
        (match replaced {
            Some(before) => attached_peer(*old(extensions)) == Some(before@),
            None => attached_peer(*old(extensions)) is None,
        }),
{
    extensions.insert(info)
}

/// Calls `Request::extensions_mut`, which borrows the extensions of the request. What is written
/// through the borrow becomes the extensions of the request, and nothing else of it changes.
#[verifier::external_body]
pub(crate) fn extensions_mut(request: &mut Request<Incoming>) -> (extensions: &mut Extensions)
    ensures
        *extensions == request_extensions(*old(request)),
        request_extensions(*final(request)) == *final(extensions),
        bare_request(*final(request)) == bare_request(*old(request)),
{
    request.extensions_mut()
}

/// `TokioExecutor::new` returns an executor. Executors hold no data, so a builder made around this
/// one is the same as a builder made around any other.
pub assume_specification[ TokioExecutor::new ]() -> (executor: TokioExecutor)
    ensures
        forall|other: TokioExecutor| #[trigger]
            default_builder(other) == default_builder(executor),
;

/// Calls `Builder::new`, which makes a builder with Hyper's default settings that restricts
/// connections to no single version of HTTP.
#[verifier::external_body]
pub(crate) fn new_builder(executor: TokioExecutor) -> (builder: Builder<TokioExecutor>)
    ensures
        builder == default_builder(executor),
        http1_available(builder),
        http2_available(builder),
{
    Builder::new(executor)
}

/// Calls `Builder::http1`, which lends the builder out for changes of its settings and does not
/// panic. Such changes never touch which versions of HTTP the builder serves, and they touch the
/// settings of HTTP/2 only through `Http1Builder::http2`. A loan that is never used changes nothing.
/// What the single setters change is left unsaid: this library calls none of them.
#[verifier::external_body]
pub(crate) fn lend_http1<'a>(builder: &'a mut Builder<TokioExecutor>) -> (settings: Http1Builder<
    'a,
    TokioExecutor,
>)
    ensures
        http1_borrowed(settings) == *old(builder),
        http1_returned(settings) == *final(builder),
        http1_available(*final(builder)) == http1_available(*old(builder)),
        http2_available(*final(builder)) == http2_available(*old(builder)),
        !asks_for_http2(settings) ==> http2_settings(*final(builder)) == http2_settings(
            *old(builder),
        ),
        has_resolved(settings) ==> *final(builder) == *old(builder),
    no_unwind
{
    builder.http1()
}

/// Calls `Builder::http2`, which lends the builder out for changes of its settings and does not
/// panic. Such changes never touch which versions of HTTP the builder serves, and they touch the
/// settings of HTTP/1 only through `Http2Builder::http1`. A loan that is never used changes nothing.
/// What the single setters change is left unsaid: this library calls none of them.
#[verifier::external_body]
pub(crate) fn lend_http2<'a>(builder: &'a mut Builder<TokioExecutor>) -> (settings: Http2Builder<
    'a,
    TokioExecutor,
>)
    ensures
        http2_borrowed(settings) == *old(builder),
        http2_returned(settings) == *final(builder),
        http1_available(*final(builder)) == http1_available(*old(builder)),
        http2_available(*final(builder)) == http2_available(*old(builder)),
        !asks_for_http1(settings) ==> http1_settings(*final(builder)) == http1_settings(
            *old(builder),
        ),
        has_resolved(settings) ==> *final(builder) == *old(builder),
    no_unwind
{
    builder.http2()
}

/// Calls `TlsAcceptor::from`, which makes an acceptor that performs handshakes under the
/// configuration.
#[verifier::external_body]
pub(crate) fn new_acceptor(config: Arc<ServerConfig>) -> (acceptor: TlsAcceptor)
    ensures
        acceptor_config(acceptor) == config,
{
    TlsAcceptor::from(config)
}

} // verus!
