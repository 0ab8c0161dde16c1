//! TLS transports, and the handshakes that turn them into connections.

use crate::builder::ConnectionBuilder;
use crate::connection::{Connection, ConnectionView, UpgradableConnection};
use crate::peer::PeerAddr;
use crate::transport::{Plain, Transport, UpgradableTransport};
use rustls::ServerConfig;
use std::sync::Arc;
use tokio_rustls::TlsAcceptor;
use vstd::prelude::*;

verus! {

/// A TLS transport: Rustls configuration together with an accepted raw stream.
///
/// Pass it to [`Server::handle`](crate::Server::handle) or
/// [`Server::handle_upgradable`](crate::Server::handle_upgradable) to serve the connection over
/// TLS. The Rustls handshake runs first; on success the HTTP connection is constructed over the
/// established TLS stream.
pub struct Tls<T>(
    /// Rustls server configuration driving the TLS handshake.
    pub Arc<ServerConfig>,
    /// Raw accepted stream promoted into a TLS stream after the handshake.
    pub T,
);

/// The Rustls handshake of a [`Tls`] transport, which is still to be performed.
pub struct TlsAccept<T> {
    /// Acceptor that performs the handshake.
    pub acceptor: TlsAcceptor,
    /// Raw accepted stream to perform it over.
    pub stream: T,
}

/// How far an asynchronous operation has come.
pub enum Poll<R> {
    /// The operation has ended with this result.
    Ready(R),
    /// The operation is still under way.
    Pending,
}

/// A pending TLS handshake that resolves into a [`Connection`].
pub struct TlsHandshake<S> {
    /// Peer socket address carried into the constructed connection.
    from: PeerAddr,
    /// Connection builder and service, consumed when the connection is constructed.
    pending: Option<(Arc<ConnectionBuilder>, S)>,
}

/// A pending TLS handshake that resolves into an [`UpgradableConnection`].
pub struct UpgradableTlsHandshake<S> {
    /// Peer socket address carried into the constructed connection.
    from: PeerAddr,
    /// Connection builder and service, consumed when the connection is constructed.
    pending: Option<(Arc<ConnectionBuilder>, S)>,
}

/// What a [`TlsHandshake`] or an [`UpgradableTlsHandshake`] consists of.
pub struct HandshakeView<S> {
    /// Peer socket address carried into the constructed connection.
    pub from: PeerAddr,
    /// Connection builder and service, until the connection has been constructed.
    pub pending: Option<(ConnectionBuilder, S)>,
}

impl<T> Tls<T> {
    /// `accept` is the handshake of this transport: over its stream and under its configuration.
    pub open spec fn accepts(self, accept: TlsAccept<T>) -> bool {
        &&& crate::outside::acceptor_config(accept.acceptor) == self.0
        &&& accept.stream == self.1
    }
}

impl<C: View, E> View for Poll<Result<C, E>> {
    type V = Poll<Result<C::V, E>>;

    open spec fn view(&self) -> Poll<Result<C::V, E>> {
        match *self {
            Poll::Ready(Ok(value)) => Poll::Ready(Ok(value@)),
            Poll::Ready(Err(error)) => Poll::Ready(Err(error)),
            Poll::Pending => Poll::Pending,
        }
    }
}

impl<T, E> Poll<Result<T, E>> {
    /// The operation has succeeded.
    pub open spec fn is_success(self) -> bool {
        self matches Poll::Ready(Ok(_))
    }
}

impl<S> HandshakeView<S> {
    /// The handshake of the peer `from`, from which no connection has been constructed yet.
    pub open spec fn of(from: PeerAddr, connection_builder: ConnectionBuilder, service: S) -> Self {
        HandshakeView { from, pending: Some((connection_builder, service)) }
    }

    /// The connection has been constructed.
    pub open spec fn completed(self) -> bool {
        self.pending is None
    }

    /// The handshake can be told `accepted`: a success comes only once.
    pub open spec fn admits<T, E>(self, accepted: Poll<Result<T, E>>) -> bool {
        accepted.is_success() ==> !self.completed()
    }

    /// What the handshake resolves into when Rustls has come as far as `accepted`.
    pub open spec fn outcome<T, E>(self, accepted: Poll<Result<T, E>>) -> Poll<
        Result<ConnectionView<T, S>, E>,
    > {
        match accepted {
            Poll::Ready(Ok(stream)) => Poll::Ready(
                Ok(
                    ConnectionView::of(
                        stream,
                        self.from,
                        self.pending.unwrap().0,
                        self.pending.unwrap().1,
                    ),
                ),
            ),
            Poll::Ready(Err(error)) => Poll::Ready(Err(error)),
            Poll::Pending => Poll::Pending,
        }
    }

    /// The handshake once it has been told `accepted`.
    pub open spec fn next<T, E>(self, accepted: Poll<Result<T, E>>) -> Self {
        if accepted.is_success() {
            HandshakeView { from: self.from, pending: None }
        } else {
            self
        }
    }

    /// The handshake once it has been told each of `polls`, in their order.
    pub open spec fn after<T, E>(self, polls: Seq<Poll<Result<T, E>>>) -> Self
        decreases polls.len(),
    {
        if polls.len() == 0 {
            self
        } else {
            self.after(polls.drop_last()).next(polls.last())
        }
    }

    /// The handshake can be told each of `polls`, in their order.
    pub open spec fn admits_all<T, E>(self, polls: Seq<Poll<Result<T, E>>>) -> bool {
        forall|i: int|
            0 <= i < polls.len() ==> self.after(polls.take(i)).admits(#[trigger] polls[i])
    }
}

impl<S> View for TlsHandshake<S> {
    type V = HandshakeView<S>;

    closed spec fn view(&self) -> HandshakeView<S> {
        HandshakeView {
            from: self.from,
            pending: match self.pending {
                Some((connection_builder, service)) => Some((*connection_builder, service)),
                None => None,
            },
        }
    }
}

impl<S> View for UpgradableTlsHandshake<S> {
    type V = HandshakeView<S>;

    closed spec fn view(&self) -> HandshakeView<S> {
        HandshakeView {
            from: self.from,
            pending: match self.pending {
                Some((connection_builder, service)) => Some((*connection_builder, service)),
                None => None,
            },
        }
    }
}

impl<S> TlsHandshake<S> {
    /// Keeps what the connection needs until the handshake has succeeded.
    pub(crate) fn new(
        from: PeerAddr,
        connection_builder: Arc<ConnectionBuilder>,
        service: S,
    ) -> (handshake: Self)
        ensures
            handshake@ == HandshakeView::of(from, *connection_builder, service),
    {
        TlsHandshake { from, pending: Some((connection_builder, service)) }
    }

    /// Tells whether the connection has been constructed, after which the handshake is not to be
    /// polled again.
    pub fn is_completed(&self) -> (completed: bool)
        ensures
            completed == self@.completed(),
    {
        self.pending.is_none()
    }

    /// Resolves the handshake as far as Rustls has come with it: into a connection over the
    /// established TLS stream, or into the error that Rustls failed with.
    pub fn poll<T, E>(&mut self, accepted: Poll<Result<T, E>>) -> (polled: Poll<
        Result<Connection<T, S>, E>,
    >)
        requires
            old(self)@.admits(accepted),
        ensures
            polled@ == old(self)@.outcome(accepted),
            final(self)@ == old(self)@.next(accepted),
    {
        match accepted {
            Poll::Ready(Ok(stream)) => {
                let (connection_builder, service) = self.pending.take().unwrap();
                let connection = Transport::construct(
                    Plain(stream),
                    self.from,
                    connection_builder,
                    service,
                );
                Poll::Ready(Ok(connection))
            },
            Poll::Ready(Err(error)) => Poll::Ready(Err(error)),
            Poll::Pending => Poll::Pending,
        }
    }
}

impl<S> UpgradableTlsHandshake<S> {
    /// Keeps what the connection needs until the handshake has succeeded.
    pub(crate) fn new(
        from: PeerAddr,
        connection_builder: Arc<ConnectionBuilder>,
        service: S,
    ) -> (handshake: Self)
        ensures
            handshake@ == HandshakeView::of(from, *connection_builder, service),
    {
        UpgradableTlsHandshake { from, pending: Some((connection_builder, service)) }
    }

    /// Tells whether the connection has been constructed, after which the handshake is not to be
    /// polled again.
    pub fn is_completed(&self) -> (completed: bool)
        ensures
            completed == self@.completed(),
    {
        self.pending.is_none()
    }

    /// Resolves the handshake as far as Rustls has come with it: into an upgrade-capable connection
    /// over the established TLS stream, or into the error that Rustls failed with.
    pub fn poll<T: Send, E>(&mut self, accepted: Poll<Result<T, E>>) -> (polled: Poll<
        Result<UpgradableConnection<T, S>, E>,
    >)
        requires
            old(self)@.admits(accepted),
        ensures
            polled@ == old(self)@.outcome(accepted),
            final(self)@ == old(self)@.next(accepted),
    {
        match accepted {
            Poll::Ready(Ok(stream)) => {
                let (connection_builder, service) = self.pending.take().unwrap();
                let connection = UpgradableTransport::construct(
                    Plain(stream),
                    self.from,
                    connection_builder,
                    service,
                );
                Poll::Ready(Ok(connection))
            },
            Poll::Ready(Err(error)) => Poll::Ready(Err(error)),
            Poll::Pending => Poll::Pending,
        }
    }
}

} // verus!
