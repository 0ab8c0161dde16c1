//! The transports that a server is able to serve.

use crate::builder::ConnectionBuilder;
use crate::connection::{Connection, ConnectionView, UpgradableConnection};
use crate::outside::new_acceptor;
use crate::peer::PeerAddr;
use crate::sealed::Sealed;
use crate::tls::{HandshakeView, Tls, TlsAccept, TlsHandshake, UpgradableTlsHandshake};
use std::sync::Arc;
use vstd::prelude::*;

verus! {

/// An accepted stream that is served as it is.
pub struct Plain<T>(
    /// Accepted stream.
    pub T,
);

impl<T> Sealed for Plain<T> {

}

impl<T> Sealed for Tls<T> {

}

/// An accepted transport that can be served by [`Server::handle`](crate::Server::handle).
///
/// This trait is sealed. It is implemented for every [`Plain`] stream, which becomes a
/// [`Connection`] at once, and for every [`Tls`] transport, which becomes a Rustls handshake to be
/// performed and a [`TlsHandshake`] that resolves into a `Connection` once it has succeeded.
pub trait Transport<S>: Sealed + Sized {
    /// What this transport becomes.
    type Handle;

    /// `handle` is what this transport becomes.
    spec fn constructs(
        self,
        from: PeerAddr,
        connection_builder: ConnectionBuilder,
        service: S,
        handle: Self::Handle,
    ) -> bool;

    /// Constructs the connection for the accepted transport.
    fn construct(
        self,
        from: PeerAddr,
        connection_builder: Arc<ConnectionBuilder>,
        service: S,
    ) -> (handle: Self::Handle)
        ensures
            self.constructs(from, *connection_builder, service, handle),
    ;
}

/// An accepted transport that can be served by
/// [`Server::handle_upgradable`](crate::Server::handle_upgradable).
///
/// This trait is sealed. It is implemented for every [`Plain`] stream, which becomes an
/// [`UpgradableConnection`] at once, and for every [`Tls`] transport, which becomes a Rustls
/// handshake to be performed and an [`UpgradableTlsHandshake`] that resolves into an
/// `UpgradableConnection` once it has succeeded.
///
/// Unlike [`Transport`], this trait requires the stream to be sendable between threads because
/// HTTP/1 upgrades require it.
pub trait UpgradableTransport<S>: Sealed + Sized {
    /// What this transport becomes.
    type Handle;

    /// `handle` is what this transport becomes.
    spec fn constructs(
        self,
        from: PeerAddr,
        connection_builder: ConnectionBuilder,
        service: S,
        handle: Self::Handle,
    ) -> bool;

    /// Constructs the upgrade-capable connection for the accepted transport.
    fn construct(
        self,
        from: PeerAddr,
        connection_builder: Arc<ConnectionBuilder>,
        service: S,
    ) -> (handle: Self::Handle)
        ensures
            self.constructs(from, *connection_builder, service, handle),
    ;
}

impl<T, S> Transport<S> for Plain<T> {
    type Handle = Connection<T, S>;

    open spec fn constructs(
        self,
        from: PeerAddr,
        connection_builder: ConnectionBuilder,
        service: S,
        handle: Connection<T, S>,
    ) -> bool {
        handle@ == ConnectionView::of(self.0, from, connection_builder, service)
    }

    fn construct(
        self,
        from: PeerAddr,
        connection_builder: Arc<ConnectionBuilder>,
        service: S,
    ) -> (handle: Connection<T, S>) {
        Connection::new(self.0, from, connection_builder, service)
    }
}

impl<T: Send, S> UpgradableTransport<S> for Plain<T> {
    type Handle = UpgradableConnection<T, S>;

    open spec fn constructs(
        self,
        from: PeerAddr,
        connection_builder: ConnectionBuilder,
        service: S,
        handle: UpgradableConnection<T, S>,
    ) -> bool {
        handle@ == ConnectionView::of(self.0, from, connection_builder, service)
    }

    fn construct(
        self,
        from: PeerAddr,
        connection_builder: Arc<ConnectionBuilder>,
        service: S,
    ) -> (handle: UpgradableConnection<T, S>) {
        UpgradableConnection::new(self.0, from, connection_builder, service)
    }
}

impl<T, S> Transport<S> for Tls<T> {
    type Handle = (TlsAccept<T>, TlsHandshake<S>);

    open spec fn constructs(
        self,
        from: PeerAddr,
        connection_builder: ConnectionBuilder,
        service: S,
        handle: (TlsAccept<T>, TlsHandshake<S>),
    ) -> bool {
        &&& self.accepts(handle.0)
        &&& handle.1@ == HandshakeView::of(from, connection_builder, service)
    }

    fn construct(
        self,
        from: PeerAddr,
        connection_builder: Arc<ConnectionBuilder>,
        service: S,
    ) -> (handle: (TlsAccept<T>, TlsHandshake<S>)) {
        (
            TlsAccept { acceptor: new_acceptor(self.0), stream: self.1 },
            TlsHandshake::new(from, connection_builder, service),
        )
    }
}

impl<T: Send, S> UpgradableTransport<S> for Tls<T> {
    type Handle = (TlsAccept<T>, UpgradableTlsHandshake<S>);

    open spec fn constructs(
        self,
        from: PeerAddr,
        connection_builder: ConnectionBuilder,
        service: S,
        handle: (TlsAccept<T>, UpgradableTlsHandshake<S>),
    ) -> bool {
        &&& self.accepts(handle.0)
        &&& handle.1@ == HandshakeView::of(from, connection_builder, service)
    }

    fn construct(
        self,
        from: PeerAddr,
        connection_builder: Arc<ConnectionBuilder>,
        service: S,
    ) -> (handle: (TlsAccept<T>, UpgradableTlsHandshake<S>)) {
        (
            TlsAccept { acceptor: new_acceptor(self.0), stream: self.1 },
            UpgradableTlsHandshake::new(from, connection_builder, service),
        )
    }
}

} // verus!
