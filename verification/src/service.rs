//! The adaptor between a `tower` service and the requests of one connection.

use crate::outside::{extensions_mut, insert_info};
use crate::peer::{ConnectionInfo, PeerAddr};
use http::{Extensions, Request};
use hyper::body::Incoming;
use vstd::prelude::*;

verus! {

/// Adaptor presenting a `tower` service as a Hyper service.
///
/// Every call attaches the peer address of the serving connection as [`ConnectionInfo`] and hands
/// the request to a clone of the inner service.
pub struct HyperServiceAdaptor<S> {
    /// Inner service, cloned for every request.
    service: S,
    /// Peer socket address attached to every request as `ConnectionInfo`.
    peer_addr: PeerAddr,
}

/// What a [`HyperServiceAdaptor`] consists of.
pub struct AdaptorView<S> {
    /// Inner service, cloned for every request.
    pub service: S,
    /// Peer socket address attached to every request.
    pub peer_addr: PeerAddr,
}

impl<S> View for HyperServiceAdaptor<S> {
    type V = AdaptorView<S>;

    closed spec fn view(&self) -> AdaptorView<S> {
        AdaptorView { service: self.service, peer_addr: self.peer_addr }
    }
}

impl<S> AdaptorView<S> {
    /// `after` are the extensions `before` with this adaptor's peer attached, in place of any peer
    /// that was attached already.
    pub open spec fn attaches(self, before: Extensions, after: Extensions) -> bool {
        &&& crate::outside::attached_peer(after) == Some(self.peer_addr)
        &&& crate::outside::other_extensions(after) == crate::outside::other_extensions(before)
    }
}

impl<S: Clone> AdaptorView<S> {
    /// `service` is a clone of the inner service, and `delivered` is `request` with this adaptor's
    /// peer attached and otherwise unchanged.
    pub open spec fn delivers(
        self,
        request: Request<Incoming>,
        service: S,
        delivered: Request<Incoming>,
    ) -> bool {
        &&& vstd::pervasive::strictly_cloned(self.service, service)
        &&& self.attaches(
            crate::outside::request_extensions(request),
            crate::outside::request_extensions(delivered),
        )
        &&& crate::outside::bare_request(delivered) == crate::outside::bare_request(request)
    }
}

impl<S> HyperServiceAdaptor<S> {
    /// Adapts a service to the requests of the connection from the given peer.
    pub(crate) fn new(service: S, peer_addr: PeerAddr) -> (adaptor: Self)
        ensures
            adaptor@ == (AdaptorView { service, peer_addr }),
    {
        HyperServiceAdaptor { service, peer_addr }
    }

    /// Attaches the peer address of the serving connection to the extensions of a request.
    pub fn attach(&self, extensions: &mut Extensions)
        ensures
            self@.attaches(*old(extensions), *final(extensions)),
    {
        let _ = insert_info(extensions, ConnectionInfo::new(self.peer_addr));
    }
}

impl<S: Clone> HyperServiceAdaptor<S> {
    /// Prepares one request: returns the clone of the inner service that is to be called, together
    /// with the request that it is to be called with.
    pub fn call(&self, request: Request<Incoming>) -> (called: (S, Request<Incoming>))
        ensures
            self@.delivers(request, called.0, called.1),
    {
        let mut request = request;
        self.attach(extensions_mut(&mut request));
        (self.service.clone(), request)
    }
}

} // verus!
