//! The server.

use crate::builder::ConnectionBuilder;
use crate::peer::PeerAddr;
use crate::transport::{Transport, UpgradableTransport};
use std::sync::Arc;
use vstd::prelude::*;

verus! {

/// A configurable HTTP server that keeps listener ownership and accept-loop policy in the caller's
/// code.
///
/// `Server` does not own the listening socket. Instead, it is given accepted transports and peer
/// addresses, so the caller keeps control of the accept loop, backpressure, and task spawning
/// policy.
pub struct Server<S> {
    /// Connection builder wrapped in an `Arc` and shared by every handled connection, so handling
    /// a transport clones only the `Arc`.
    connection_builder: Arc<ConnectionBuilder>,
    /// Service cloned for every accepted transport.
    service: S,
}

/// What a [`Server`] consists of.
pub struct ServerView<S> {
    /// Connection builder shared by every handled connection.
    pub connection_builder: ConnectionBuilder,
    /// Service cloned for every accepted transport.
    pub service: S,
}

impl<S> View for Server<S> {
    type V = ServerView<S>;

    closed spec fn view(&self) -> ServerView<S> {
        ServerView { connection_builder: *self.connection_builder, service: self.service }
    }
}

impl<S: Clone> ServerView<S> {
    /// `handle` is what `stream` from the peer `from` becomes: it is constructed with this server's
    /// connection builder and with a clone of its service.
    pub open spec fn handles<T: Transport<S>>(
        self,
        stream: T,
        from: PeerAddr,
        handle: T::Handle,
    ) -> bool {
        exists|service: S|
            #![trigger vstd::pervasive::strictly_cloned(self.service, service)]
            {
                &&& vstd::pervasive::strictly_cloned(self.service, service)
                &&& stream.constructs(from, self.connection_builder, service, handle)
            }
    }

    /// `handle` is what `stream` from the peer `from` becomes with HTTP/1 upgrade support enabled:
    /// it is constructed with this server's connection builder and with a clone of its service.
    pub open spec fn handles_upgradable<T: UpgradableTransport<S>>(
        self,
        stream: T,
        from: PeerAddr,
        handle: T::Handle,
    ) -> bool {
        exists|service: S|
            #![trigger vstd::pervasive::strictly_cloned(self.service, service)]
            {
                &&& vstd::pervasive::strictly_cloned(self.service, service)
                &&& stream.constructs(from, self.connection_builder, service, handle)
            }
    }
}

impl<S: Clone> Server<S> {
    /// Creates a new server from a connection builder and a clonable service.
    pub fn new(connection_builder: ConnectionBuilder, service: S) -> (server: Self)
        ensures
            server@ == (ServerView { connection_builder, service }),
            server@.connection_builder.serves_both_versions(),
    {
        proof {
            use_type_invariant(&connection_builder);
        }
        Server { connection_builder: Arc::new(connection_builder), service }
    }

    /// Handles an accepted transport and returns what it becomes.
    ///
    /// The caller provides the accepted transport together with the peer socket address, which
    /// usually come from a listener. The address is inserted into every request served over the
    /// transport as [`ConnectionInfo`](crate::ConnectionInfo).
    ///
    /// A [`Plain`](crate::Plain) stream becomes a [`Connection`](crate::Connection). A
    /// [`Tls`](crate::Tls) transport becomes a [`TlsAccept`](crate::TlsAccept), the handshake to be
    /// performed, and a [`TlsHandshake`](crate::TlsHandshake) that resolves into a `Connection`.
    pub fn handle<T: Transport<S>>(&mut self, stream: T, from: PeerAddr) -> (handle: T::Handle)
        ensures
            old(self)@.handles(stream, from, handle),
            *final(self) == *old(self),
    {
        let service = self.service.clone();
        assert(vstd::pervasive::strictly_cloned(self@.service, service));
        T::construct(stream, from, self.connection_builder.clone(), service)
    }

    /// Handles an accepted transport and returns what it becomes with HTTP/1 upgrade support
    /// enabled.
    ///
    /// This behaves like [`Server::handle`], but constructs an
    /// [`UpgradableConnection`](crate::UpgradableConnection), or an
    /// [`UpgradableTlsHandshake`](crate::UpgradableTlsHandshake) resolving into one when a
    /// [`Tls`](crate::Tls) transport is passed. The stream must be sendable between threads.
    pub fn handle_upgradable<T: UpgradableTransport<S>>(
        &mut self,
        stream: T,
        from: PeerAddr,
    ) -> (handle: T::Handle)
        ensures
            old(self)@.handles_upgradable(stream, from, handle),
            *final(self) == *old(self),
    {
        let service = self.service.clone();
        assert(vstd::pervasive::strictly_cloned(self@.service, service));
        T::construct(stream, from, self.connection_builder.clone(), service)
    }
}

} // verus!
