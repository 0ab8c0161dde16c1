//! A configurable HTTP server adaptor built on top of `hyper` and `tower`.
//!
//! A [`Server`] keeps a connection builder and a service, and turns every transport that it is
//! handed into an HTTP connection: which stream is served, with which settings, by which clone of
//! the service, and on behalf of which peer. The listener, the accept loop and the spawning of
//! tasks stay with the caller.
//!
//! - [`peer`] and [`service`]: the peer address and how it is attached to each request;
//! - [`builder`]: the settings that connections are served with;
//! - [`connection`], [`tls`] and [`transport`]: what an accepted transport becomes;
//! - [`server`]: the server itself;
//! - [`laws`]: what holds of all of these together;
//! - [`outside`]: everything that is believed of the crates this library calls.

pub mod builder;
pub mod connection;
pub mod laws;
pub mod outside;
pub mod peer;
mod sealed;
pub mod server;
pub mod service;
pub mod tls;
pub mod transport;

pub use crate::builder::ConnectionBuilder;
pub use crate::connection::{Connection, UpgradableConnection};
pub use crate::peer::{ConnectionInfo, PeerAddr};
pub use crate::server::Server;
pub use crate::service::HyperServiceAdaptor;
pub use crate::tls::{Poll, Tls, TlsAccept, TlsHandshake, UpgradableTlsHandshake};
pub use crate::transport::{Plain, Transport, UpgradableTransport};
/// Hyper's default request body type.
pub use hyper::body::Incoming;
/// Hyper's HTTP/1 connection configuration builder.
pub use hyper_util::server::conn::auto::Http1Builder;
/// Hyper's HTTP/2 connection configuration builder.
pub use hyper_util::server::conn::auto::Http2Builder;
