//! The address of a peer, and the metadata that each request carries about it.

use vstd::prelude::*;

verus! {

/// The socket address of a peer.
#[derive(Debug, Clone, Copy, PartialEq, Eq, Hash)]
pub enum PeerAddr {
    /// An IPv4 socket address.
    V4 {
        /// The four octets of the IP address.
        octets: [u8; 4],
        /// The TCP port.
        port: u16,
    },
    /// An IPv6 socket address.
    V6 {
        /// The eight segments of the IP address.
        segments: [u16; 8],
        /// The TCP port.
        port: u16,
        /// The flow information of the address.
        flowinfo: u32,
        /// The scope ID of the address.
        scope_id: u32,
    },
}

/// Peer information attached to each incoming request.
///
/// Every request of a served connection carries a `ConnectionInfo` value in its extensions, letting
/// handlers inspect the peer socket address of the connection that carried the request.
#[derive(Debug, Clone, Copy)]
pub struct ConnectionInfo {
    /// Peer socket address of the accepted connection that carried the request.
    peer_addr: PeerAddr,
}

impl View for ConnectionInfo {
    type V = PeerAddr;

    closed spec fn view(&self) -> PeerAddr {
        self.peer_addr
    }
}

impl ConnectionInfo {
    /// Describes a connection whose peer has the given address.
    pub(crate) fn new(peer_addr: PeerAddr) -> (info: Self)
        ensures
            info@ == peer_addr,
    {
        ConnectionInfo { peer_addr }
    }

    /// Returns the peer socket address of the connection that carried the request.
    pub fn peer_addr(&self) -> (peer_addr: PeerAddr)
        ensures
            peer_addr == self@,
    {
        self.peer_addr
    }
}

} // verus!
