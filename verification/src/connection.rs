//! HTTP connections, ready to be driven.

use crate::builder::ConnectionBuilder;
use crate::peer::PeerAddr;
use crate::service::{AdaptorView, HyperServiceAdaptor};
use std::sync::Arc;
use vstd::prelude::*;

verus! {

/// An HTTP connection, ready to be driven by Hyper's connection future.
pub struct Connection<T, S> {
    /// Stream that the connection is served over.
    stream: T,
    /// Service that answers the requests of the connection.
    service: HyperServiceAdaptor<S>,
    /// Settings that the connection is served with.
    connection_builder: Arc<ConnectionBuilder>,
}

/// An HTTP connection with HTTP/1 upgrade support enabled, ready to be driven by Hyper's
/// upgrade-capable connection future.
pub struct UpgradableConnection<T, S> {
    /// Stream that the connection is served over.
    stream: T,
    /// Service that answers the requests of the connection.
    service: HyperServiceAdaptor<S>,
    /// Settings that the connection is served with.
    connection_builder: Arc<ConnectionBuilder>,
}

/// What a [`Connection`] or an [`UpgradableConnection`] consists of.
pub struct ConnectionView<T, S> {
    /// Stream that the connection is served over.
    pub stream: T,
    /// Service that answers the requests of the connection.
    pub service: AdaptorView<S>,
    /// Settings that the connection is served with.
    pub connection_builder: ConnectionBuilder,
}

impl<T, S> ConnectionView<T, S> {
    /// The connection of the peer `from` over `stream`, answered by `service`.
    pub open spec fn of(
        stream: T,
        from: PeerAddr,
        connection_builder: ConnectionBuilder,
        service: S,
    ) -> Self {
        ConnectionView {
            stream,
            service: AdaptorView { service, peer_addr: from },
            connection_builder,
        }
    }
}

impl<T, S> View for Connection<T, S> {
    type V = ConnectionView<T, S>;

    closed spec fn view(&self) -> ConnectionView<T, S> {
        ConnectionView {
            stream: self.stream,
            service: self.service@,
            connection_builder: *self.connection_builder,
        }
    }
}

impl<T, S> View for UpgradableConnection<T, S> {
    type V = ConnectionView<T, S>;

    closed spec fn view(&self) -> ConnectionView<T, S> {
        ConnectionView {
            stream: self.stream,
            service: self.service@,
            connection_builder: *self.connection_builder,
        }
    }
}

impl<T, S> Connection<T, S> {
    /// Binds a stream to a service and to settings, on behalf of the peer `from`.
    pub(crate) fn new(
        stream: T,
        from: PeerAddr,
        connection_builder: Arc<ConnectionBuilder>,
        service: S,
    ) -> (connection: Self)
        ensures
            connection@ == ConnectionView::of(stream, from, *connection_builder, service),
    {
        let service = HyperServiceAdaptor::new(service, from);
        Connection { stream, service, connection_builder }
    }

    /// Takes the connection apart into what Hyper serves it with.
    pub fn into_parts(self) -> (parts: (T, HyperServiceAdaptor<S>, Arc<ConnectionBuilder>))
        ensures
            parts.0 == self@.stream,
            parts.1@ == self@.service,
            *parts.2 == self@.connection_builder,
    {
        (self.stream, self.service, self.connection_builder)
    }
}

impl<T, S> UpgradableConnection<T, S> {
    /// Binds a stream to a service and to settings, on behalf of the peer `from`.
    pub(crate) fn new(
        stream: T,
        from: PeerAddr,
        connection_builder: Arc<ConnectionBuilder>,
        service: S,
    ) -> (connection: Self)
        ensures
            connection@ == ConnectionView::of(stream, from, *connection_builder, service),
    {
        let service = HyperServiceAdaptor::new(service, from);
        UpgradableConnection { stream, service, connection_builder }
    }

    /// Takes the connection apart into what Hyper serves it with.
    pub fn into_parts(self) -> (parts: (T, HyperServiceAdaptor<S>, Arc<ConnectionBuilder>))
        ensures
            parts.0 == self@.stream,
            parts.1@ == self@.service,
            *parts.2 == self@.connection_builder,
    {
        (self.stream, self.service, self.connection_builder)
    }
}

} // verus!
