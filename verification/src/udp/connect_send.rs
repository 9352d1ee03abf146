//! Sending the packets of a SOCKS5 UDP association to the client.
//!
//! Every payload goes out behind the same header, which names the upstream
//! peer and is made once. The header and the payload are handed to the
//! socket as two pieces, so that neither is copied.

use vstd::prelude::*;

use crate::io::IoFailure;
use crate::udp::addr::UpstreamAddr;
use crate::udp::socks5::{socks5_udp_header, UdpOutput};

verus! {

/// Why a packet could not be sent to the client.
#[derive(Clone, Copy, Debug, PartialEq, Eq, Structural)]
pub enum UdpCopyClientError {
    /// The socket failed, or took nothing.
    SendFailed(IoFailure),
}

/// What a send amounts to, given what the socket reported: a send that
/// took nothing counts as a failure.
pub open spec fn send_result_of(sent: Result<usize, IoFailure>) -> Result<
    usize,
    UdpCopyClientError,
> {
    match sent {
        Ok(n) => if n == 0 {
            Err(UdpCopyClientError::SendFailed(IoFailure::WriteZero))
        } else {
            Ok(n)
        },
        Err(e) => Err(UdpCopyClientError::SendFailed(e)),
    }
}

/// The sending end of a SOCKS5 UDP association towards the client.
pub struct Socks5UdpConnectClientSend {
    socks5_header: Vec<u8>,
}

impl Socks5UdpConnectClientSend {
    /// The header that goes in front of every payload.
    pub closed spec fn spec_header(&self) -> Seq<u8> {
        self.socks5_header@
    }

    /// A sending end for packets that come from `upstream`.
    pub fn new(upstream: &UpstreamAddr) -> (r: Self)
        ensures
            r.spec_header() == socks5_udp_header(upstream@),
    {
        let header_len: usize = UdpOutput::calc_header_len(upstream);
        let mut socks5_header: Vec<u8> = Vec::with_capacity(header_len);
        UdpOutput::generate_header(&mut socks5_header, upstream);
        assert(socks5_header@ =~= socks5_udp_header(upstream@));
        Socks5UdpConnectClientSend { socks5_header }
    }

    /// The header that goes in front of every payload.
    pub fn header(&self) -> (r: &[u8])
        ensures
            r@ == self.spec_header(),
    {
        self.socks5_header.as_slice()
    }

    /// What sending one packet amounts to, given the number of bytes that
    /// the socket reported as sent, or its failure.
    pub fn poll_send_packet(&self, sent: Result<usize, IoFailure>) -> (r: Result<
        usize,
        UdpCopyClientError,
    >)
        ensures
            r == send_result_of(sent),
    {
        match sent {
            Ok(nw) => {
                if nw == 0 {
                    Err(UdpCopyClientError::SendFailed(IoFailure::WriteZero))
                } else {
                    Ok(nw)
                }
            },
            Err(e) => Err(UdpCopyClientError::SendFailed(e)),
        }
    }

    /// What sending a batch of packets amounts to, given the number of
    /// packets that the socket reported as sent, or its failure.
    pub fn poll_send_packets(&self, sent: Result<usize, IoFailure>) -> (r: Result<
        usize,
        UdpCopyClientError,
    >)
        ensures
            r == send_result_of(sent),
    {
        match sent {
            Ok(count) => {
                if count == 0 {
                    Err(UdpCopyClientError::SendFailed(IoFailure::WriteZero))
                } else {
                    Ok(count)
                }
            },
            Err(e) => Err(UdpCopyClientError::SendFailed(e)),
        }
    }
}

} // verus!
