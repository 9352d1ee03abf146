//! The header that SOCKS5 puts in front of every UDP payload.
//!
//! Two reserved bytes of zero, a fragment number of zero, the address type,
//! the address, and the port in network order.

use vstd::prelude::*;

use crate::udp::addr::{Host, HostView, IpAddress, UpstreamAddr, UpstreamAddrView};

verus! {

/// The address type of an IPv4 address.
pub const ATYP_IPV4: u8 = 1;

/// The address type of a domain name.
pub const ATYP_DOMAIN: u8 = 3;

/// The address type of an IPv6 address.
pub const ATYP_IPV6: u8 = 4;

/// The last `n` bytes of `x`, most significant first.
pub open spec fn be_bytes(x: nat, n: nat) -> Seq<u8>
    decreases n,
{
    if n == 0 {
        Seq::empty()
    } else {
        be_bytes(x / 256, (n - 1) as nat).push((x % 256) as u8)
    }
}

/// The address part of the header: the type, then the address.
pub open spec fn socks5_address(host: HostView) -> Seq<u8> {
    match host {
        HostView::Ip(IpAddress::V4(bits)) => seq![ATYP_IPV4] + be_bytes(bits as nat, 4),
        HostView::Ip(IpAddress::V6(bits)) => seq![ATYP_IPV6] + be_bytes(bits as nat, 16),
        HostView::Domain(d) => seq![ATYP_DOMAIN, d.len() as u8] + d,
    }
}

/// The header for payloads that go to `upstream`.
pub open spec fn socks5_udp_header(upstream: UpstreamAddrView) -> Seq<u8> {
    seq![0u8, 0u8, 0u8] + socks5_address(upstream.host) + be_bytes(upstream.port as nat, 2)
}

/// The length of the header for payloads that go to `upstream`.
pub open spec fn socks5_udp_header_len(upstream: UpstreamAddrView) -> nat {
    match upstream.host {
        HostView::Ip(IpAddress::V4(_)) => 10,
        HostView::Ip(IpAddress::V6(_)) => 22,
        HostView::Domain(d) => 7 + d.len(),
    }
}

/// `n` bytes are `n` bytes.
pub proof fn lemma_be_bytes_len(x: nat, n: nat)
    ensures
        be_bytes(x, n).len() == n,
    decreases n,
{
    if n > 0 {
        lemma_be_bytes_len(x / 256, (n - 1) as nat);
    }
}

/// The header is as long as its length says.
pub proof fn lemma_header_len(upstream: UpstreamAddrView)
    ensures
        socks5_udp_header(upstream).len() == socks5_udp_header_len(upstream),
{
    lemma_be_bytes_len(upstream.port as nat, 2);
    match upstream.host {
        HostView::Ip(IpAddress::V4(bits)) => lemma_be_bytes_len(bits as nat, 4),
        HostView::Ip(IpAddress::V6(bits)) => lemma_be_bytes_len(bits as nat, 16),
        HostView::Domain(d) => {},
    }
}

/// Appends the last `n` bytes of `x`, most significant first.
pub fn push_be_bytes(x: u128, n: usize, out: &mut Vec<u8>)
    ensures
        final(out)@ == old(out)@ + be_bytes(x as nat, n as nat),
    decreases n,
{
    if n > 0 {
        push_be_bytes(x / 256, n - 1, out);
        let b: u8 = (x % 256) as u8;
        out.push(b);
        assert(out@ =~= old(out)@ + be_bytes(x as nat, n as nat));
    } else {
        assert(out@ =~= old(out)@ + be_bytes(x as nat, 0));
    }
}

/// The SOCKS5 UDP header.
pub struct UdpOutput {}

impl UdpOutput {
    /// The length of the header for payloads that go to `upstream`: 10
    /// bytes for an IPv4 address, 22 for an IPv6 address, and 7 more than
    /// its length for a domain name.
    pub fn calc_header_len(upstream: &UpstreamAddr) -> (r: usize)
        ensures
            r == socks5_udp_header_len(upstream@),
            r == socks5_udp_header(upstream@).len(),
    {
        proof {
            lemma_header_len(upstream@);
        }
        match upstream.host() {
            Host::Ip(IpAddress::V4(_)) => 10,
            Host::Ip(IpAddress::V6(_)) => 22,
            Host::Domain(d) => 7 + d.len(),
        }
    }

    /// Appends the header for payloads that go to `upstream`.
    pub fn generate_header(out: &mut Vec<u8>, upstream: &UpstreamAddr)
        ensures
            final(out)@ == old(out)@ + socks5_udp_header(upstream@),
    {
        out.push(0);
        out.push(0);
        out.push(0);
        let ghost start = out@;
        assert(start =~= old(out)@ + seq![0u8, 0u8, 0u8]);
        match upstream.host() {
            Host::Ip(IpAddress::V4(bits)) => {
                out.push(ATYP_IPV4);
                push_be_bytes(*bits as u128, 4, out);
                assert(out@ =~= start + socks5_address(upstream@.host));
            },
            Host::Ip(IpAddress::V6(bits)) => {
                out.push(ATYP_IPV6);
                push_be_bytes(*bits, 16, out);
                assert(out@ =~= start + socks5_address(upstream@.host));
            },
            Host::Domain(d) => {
                out.push(ATYP_DOMAIN);
                out.push(d.len() as u8);
                let ghost mid = out@;
                out.extend_from_slice(d.as_slice());
                assert(out@ =~= mid + d@);
                assert(out@ =~= start + socks5_address(upstream@.host));
            },
        }
        let ghost with_addr = out@;
        push_be_bytes(upstream.port() as u128, 2, out);
        assert(out@ =~= old(out)@ + socks5_udp_header(upstream@));
    }
}

} // verus!
