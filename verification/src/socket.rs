//! Where the stream is received, and how long to wait between two attempts
//! to get a socket there.

use vstd::prelude::*;

verus! {

/// UDP port on which the stream arrives.
pub const PORT: u16 = 2068;

/// Seconds to let pass after a failed attempt to open the socket.
pub const RETRY_DELAY_SECS: u64 = 1;

/// The socket that the worker asks for: where it is bound, which multicast
/// group it joins, and whether other sockets on the host may share the
/// address and port.
#[derive(Clone, Copy, Debug, PartialEq, Eq)]
pub struct Endpoint {
    /// Local address to bind, as four octets.
    pub bind: [u8; 4],
    /// Local port to bind.
    pub port: u16,
    /// Multicast group to join, as four octets.
    pub group: [u8; 4],
    /// Whether the address and port are opened for reuse by other sockets.
    pub reuse_port: bool,
}

impl Endpoint {
    /// The endpoint of the stream: every interface, port 2068, group
    /// 226.2.2.2, shared with other receivers on the host.
    pub open spec fn spec_stream() -> Endpoint {
        Endpoint { bind: [0u8, 0u8, 0u8, 0u8], port: PORT, group: [226u8, 2u8, 2u8, 2u8], reuse_port: true }
    }

    /// The endpoint of the stream.
    pub fn stream() -> (endpoint: Endpoint)
        ensures
            endpoint == Endpoint::spec_stream(),
            endpoint.bind@ == seq![0u8, 0u8, 0u8, 0u8],
            endpoint.port == 2068,
            endpoint.group@ == seq![226u8, 2u8, 2u8, 2u8],
            endpoint.reuse_port,
    {
        Endpoint { bind: [0u8, 0u8, 0u8, 0u8], port: PORT, group: [226u8, 2u8, 2u8, 2u8], reuse_port: true }
    }
}

} // verus!
