//! Receiving from the remote side of a UDP relay that may listen on an
//! IPv4 socket, an IPv6 socket, or both.
//!
//! The IPv4 socket is always asked first; the IPv6 socket is asked only
//! when the IPv4 socket has nothing. A failure names the address that the
//! failing socket is bound to.

use vstd::prelude::*;

use crate::io::IoFailure;
use crate::udp::addr::{AddressFamily, SocketAddress};

verus! {

/// Why nothing could be received from the remote side.
#[derive(Clone, Copy, Debug, PartialEq, Eq, Structural)]
pub enum UdpRelayRemoteError {
    /// Neither socket is enabled.
    NoListenSocket,
    /// Receiving on the socket bound to this address failed.
    RecvFailed(SocketAddress, IoFailure),
}

/// What one socket answered when it was asked for a packet.
#[derive(Clone, Copy, Debug, PartialEq, Eq, Structural)]
pub enum RecvOutcome {
    /// It has nothing at the moment.
    Pending,
    /// It received `nr` bytes from `from`.
    Received { nr: usize, from: SocketAddress },
    /// It failed.
    Failed(IoFailure),
}

/// What to do next in order to receive one packet.
#[derive(Clone, Copy, Debug, PartialEq, Eq, Structural)]
pub enum RecvStep {
    /// Ask the socket of this family.
    Poll(AddressFamily),
    /// No socket has anything: wait.
    Pending,
    /// A packet of `nr` bytes from `from` lies at offset `off` of the
    /// buffer.
    Received { off: usize, nr: usize, from: SocketAddress },
    /// Receiving failed.
    Failed(UdpRelayRemoteError),
}

/// What one socket answered when it was asked for a batch of packets.
#[derive(Clone, Copy, Debug, PartialEq, Eq, Structural)]
pub enum BatchOutcome {
    /// It has nothing at the moment.
    Pending,
    /// It received this many packets.
    Received(usize),
    /// It failed.
    Failed(IoFailure),
}

/// What to do next in order to receive a batch of packets.
#[derive(Clone, Copy, Debug, PartialEq, Eq, Structural)]
pub enum BatchStep {
    /// Ask the socket of this family.
    Poll(AddressFamily),
    /// No socket has anything: wait.
    Pending,
    /// This many packets were received.
    Received(usize),
    /// Receiving failed.
    Failed(UdpRelayRemoteError),
}

/// What the operating system recorded of one received packet.
#[derive(Clone, Copy, Debug, PartialEq, Eq, Structural)]
pub struct RecvMsgHdr {
    /// The length of the packet.
    pub n_recv: usize,
    /// Where the packet came from, if that was recorded.
    pub src_addr: Option<SocketAddress>,
}

/// Where in its buffer a relayed packet lies, and where it came from.
#[derive(Clone, Copy, Debug, PartialEq, Eq, Structural)]
pub struct UdpRelayPacketMeta {
    pub buf_data_off: usize,
    pub buf_data_len: usize,
    pub upstream: SocketAddress,
}

/// The record of one received packet: the data starts at offset 0, and a
/// source that was not recorded counts as the unspecified address of the
/// family that the socket is bound to.
pub open spec fn packet_meta_of(h: RecvMsgHdr, bind_addr: SocketAddress) -> UdpRelayPacketMeta {
    UdpRelayPacketMeta {
        buf_data_off: 0,
        buf_data_len: h.n_recv,
        upstream: match h.src_addr {
            Some(a) => a,
            None => SocketAddress::spec_unspecified(bind_addr.ip.spec_family()),
        },
    }
}

/// The receiving end of a relay as contracts see it.
pub struct RelayRecvView {
    pub has_v4: bool,
    pub has_v6: bool,
    pub bind_v4: SocketAddress,
    pub bind_v6: SocketAddress,
}

impl RelayRecvView {
    /// The address that the socket of a family is bound to.
    pub open spec fn bind_addr(self, family: AddressFamily) -> SocketAddress {
        match family {
            AddressFamily::Ipv4 => self.bind_v4,
            AddressFamily::Ipv6 => self.bind_v6,
        }
    }

    /// Which socket to ask first, if any.
    pub open spec fn first(self) -> Option<AddressFamily> {
        if self.has_v4 {
            Some(AddressFamily::Ipv4)
        } else if self.has_v6 {
            Some(AddressFamily::Ipv6)
        } else {
            None
        }
    }

    /// Which socket to ask after the socket of `family` had nothing.
    pub open spec fn after_pending(self, family: AddressFamily) -> Option<AddressFamily> {
        if family is Ipv4 && self.has_v6 {
            Some(AddressFamily::Ipv6)
        } else {
            None
        }
    }

    /// What to do next in order to receive one packet, given what the
    /// socket asked last answered.
    pub open spec fn recv_step(self, last: Option<(AddressFamily, RecvOutcome)>) -> RecvStep {
        match last {
            None => match self.first() {
                Some(f) => RecvStep::Poll(f),
                None => RecvStep::Failed(UdpRelayRemoteError::NoListenSocket),
            },
            Some((family, RecvOutcome::Pending)) => match self.after_pending(family) {
                Some(f) => RecvStep::Poll(f),
                None => RecvStep::Pending,
            },
            Some((_, RecvOutcome::Received { nr, from })) => RecvStep::Received {
                off: 0,
                nr,
                from,
            },
            Some((family, RecvOutcome::Failed(e))) => RecvStep::Failed(
                UdpRelayRemoteError::RecvFailed(self.bind_addr(family), e),
            ),
        }
    }

    /// What to do next in order to receive a batch of packets, given what
    /// the socket asked last answered.
    pub open spec fn batch_step(self, last: Option<(AddressFamily, BatchOutcome)>) -> BatchStep {
        match last {
            None => match self.first() {
                Some(f) => BatchStep::Poll(f),
                None => BatchStep::Failed(UdpRelayRemoteError::NoListenSocket),
            },
            Some((family, BatchOutcome::Pending)) => match self.after_pending(family) {
                Some(f) => BatchStep::Poll(f),
                None => BatchStep::Pending,
            },
            Some((_, BatchOutcome::Received(count))) => BatchStep::Received(count),
            Some((family, BatchOutcome::Failed(e))) => BatchStep::Failed(
                UdpRelayRemoteError::RecvFailed(self.bind_addr(family), e),
            ),
        }
    }
}

/// The receiving end of a relay that sends straight to the remote side.
#[derive(Clone, Copy, Debug)]
pub struct DirectUdpRelayRemoteRecv {
    has_v4: bool,
    has_v6: bool,
    bind_v4: SocketAddress,
    bind_v6: SocketAddress,
}

impl View for DirectUdpRelayRemoteRecv {
    type V = RelayRecvView;

    closed spec fn view(&self) -> RelayRecvView {
        RelayRecvView {
            has_v4: self.has_v4,
            has_v6: self.has_v6,
            bind_v4: self.bind_v4,
            bind_v6: self.bind_v6,
        }
    }
}

impl DirectUdpRelayRemoteRecv {
    /// A receiving end with no socket enabled.
    pub fn new() -> (r: Self)
        ensures
            r@ == (RelayRecvView {
                has_v4: false,
                has_v6: false,
                bind_v4: SocketAddress::spec_unspecified(AddressFamily::Ipv4),
                bind_v6: SocketAddress::spec_unspecified(AddressFamily::Ipv6),
            }),
    {
        DirectUdpRelayRemoteRecv {
            has_v4: false,
            has_v6: false,
            bind_v4: SocketAddress::unspecified(AddressFamily::Ipv4),
            bind_v6: SocketAddress::unspecified(AddressFamily::Ipv6),
        }
    }

    /// Enables the IPv4 socket, which is bound to `bind`.
    pub fn enable_v4(&mut self, bind: SocketAddress)
        ensures
            final(self)@ == (RelayRecvView { has_v4: true, bind_v4: bind, ..old(self)@ }),
    {
        self.has_v4 = true;
        self.bind_v4 = bind;
    }

    /// Enables the IPv6 socket, which is bound to `bind`.
    pub fn enable_v6(&mut self, bind: SocketAddress)
        ensures
            final(self)@ == (RelayRecvView { has_v6: true, bind_v6: bind, ..old(self)@ }),
    {
        self.has_v6 = true;
        self.bind_v6 = bind;
    }

    /// The number of bytes in front of the payload of a received packet:
    /// none.
    pub fn max_hdr_len(&self) -> (r: usize)
        ensures
            r == 0,
    {
        0
    }

    /// The address that the socket of a family is bound to.
    pub fn bind_addr(&self, family: AddressFamily) -> (r: SocketAddress)
        ensures
            r == self@.bind_addr(family),
    {
        match family {
            AddressFamily::Ipv4 => self.bind_v4,
            AddressFamily::Ipv6 => self.bind_v6,
        }
    }

    fn first(&self) -> (r: Option<AddressFamily>)
        ensures
            r == self@.first(),
    {
        if self.has_v4 {
            Some(AddressFamily::Ipv4)
        } else if self.has_v6 {
            Some(AddressFamily::Ipv6)
        } else {
            None
        }
    }

    fn after_pending(&self, family: AddressFamily) -> (r: Option<AddressFamily>)
        ensures
            r == self@.after_pending(family),
    {
        match family {
            AddressFamily::Ipv4 => if self.has_v6 {
                Some(AddressFamily::Ipv6)
            } else {
                None
            },
            AddressFamily::Ipv6 => None,
        }
    }

    /// Says what to do next in order to receive one packet. `last` is
    /// what the socket asked last answered, `None` at the start.
    pub fn poll_recv_packet(&self, last: Option<(AddressFamily, RecvOutcome)>) -> (r: RecvStep)
        ensures
            r == self@.recv_step(last),
    {
        match last {
            None => match self.first() {
                Some(f) => RecvStep::Poll(f),
                None => RecvStep::Failed(UdpRelayRemoteError::NoListenSocket),
            },
            Some((family, RecvOutcome::Pending)) => match self.after_pending(family) {
                Some(f) => RecvStep::Poll(f),
                None => RecvStep::Pending,
            },
            Some((_, RecvOutcome::Received { nr, from })) => RecvStep::Received {
                off: 0,
                nr,
                from,
            },
            Some((family, RecvOutcome::Failed(e))) => RecvStep::Failed(
                UdpRelayRemoteError::RecvFailed(self.bind_addr(family), e),
            ),
        }
    }

    /// Says what to do next in order to receive a batch of packets. `last`
    /// is what the socket asked last answered, `None` at the start.
    pub fn poll_recv_packets(&self, last: Option<(AddressFamily, BatchOutcome)>) -> (r: BatchStep)
        ensures
            r == self@.batch_step(last),
    {
        match last {
            None => match self.first() {
                Some(f) => BatchStep::Poll(f),
                None => BatchStep::Failed(UdpRelayRemoteError::NoListenSocket),
            },
            Some((family, BatchOutcome::Pending)) => match self.after_pending(family) {
                Some(f) => BatchStep::Poll(f),
                None => BatchStep::Pending,
            },
            Some((_, BatchOutcome::Received(count))) => BatchStep::Received(count),
            Some((family, BatchOutcome::Failed(e))) => BatchStep::Failed(
                UdpRelayRemoteError::RecvFailed(self.bind_addr(family), e),
            ),
        }
    }

    /// The records of the first `count` packets of a batch that the
    /// socket bound to `bind_addr` received, in order; of all of them if
    /// there are fewer.
    pub fn packet_metas(bind_addr: SocketAddress, hdr_v: &Vec<RecvMsgHdr>, count: usize) -> (r: Vec<
        UdpRelayPacketMeta,
    >)
        ensures
            r@.len() == (if count <= hdr_v@.len() {
                count as int
            } else {
                hdr_v@.len() as int
            }),
            forall|i: int| 0 <= i < r@.len() ==> r@[i] == packet_meta_of(hdr_v@[i], bind_addr),
    {
        let n: usize = if count <= hdr_v.len() {
            count
        } else {
            hdr_v.len()
        };
        let mut r: Vec<UdpRelayPacketMeta> = Vec::new();
        let mut i: usize = 0;
        while i < n
            invariant
                i <= n <= hdr_v@.len(),
                r@.len() == i,
                forall|j: int| 0 <= j < i ==> r@[j] == packet_meta_of(hdr_v@[j], bind_addr),
            decreases n - i,
        {
            let h = hdr_v[i];
            let upstream = match h.src_addr {
                Some(a) => a,
                None => SocketAddress::unspecified(bind_addr.ip.family()),
            };
            r.push(UdpRelayPacketMeta { buf_data_off: 0, buf_data_len: h.n_recv, upstream });
            i = i + 1;
        }
        r
    }
}

/// With both sockets enabled the IPv4 socket is asked first and the IPv6
/// socket only once the IPv4 socket had nothing; with neither enabled
/// receiving fails at once.
pub proof fn lemma_v4_goes_first(v: RelayRecvView)
    ensures
        v.has_v4 ==> v.recv_step(None) == RecvStep::Poll(AddressFamily::Ipv4),
        v.has_v4 && v.has_v6 ==> v.recv_step(Some((AddressFamily::Ipv4, RecvOutcome::Pending)))
            == RecvStep::Poll(AddressFamily::Ipv6),
        v.recv_step(Some((AddressFamily::Ipv6, RecvOutcome::Pending))) == RecvStep::Pending,
        !v.has_v4 && !v.has_v6 ==> v.recv_step(None) == RecvStep::Failed(
            UdpRelayRemoteError::NoListenSocket,
        ),
{
}

} // verus!
