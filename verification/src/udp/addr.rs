//! Addresses as plain values.

use vstd::prelude::*;

verus! {

/// The two address families.
#[derive(Clone, Copy, Debug, PartialEq, Eq, Structural)]
pub enum AddressFamily {
    Ipv4,
    Ipv6,
}

/// An IP address, held as the number that its bytes spell in network
/// order.
#[derive(Clone, Copy, Debug, PartialEq, Eq, Structural)]
pub enum IpAddress {
    V4(u32),
    V6(u128),
}

impl IpAddress {
    /// The family of the address.
    pub open spec fn spec_family(self) -> AddressFamily {
        match self {
            IpAddress::V4(_) => AddressFamily::Ipv4,
            IpAddress::V6(_) => AddressFamily::Ipv6,
        }
    }

    /// The address of all zeros of a family.
    pub open spec fn spec_unspecified(family: AddressFamily) -> IpAddress {
        match family {
            AddressFamily::Ipv4 => IpAddress::V4(0),
            AddressFamily::Ipv6 => IpAddress::V6(0),
        }
    }

    /// The family of the address.
    #[verifier::when_used_as_spec(spec_family)]
    pub fn family(self) -> (r: AddressFamily)
        ensures
            r == self.spec_family(),
    {
        match self {
            IpAddress::V4(_) => AddressFamily::Ipv4,
            IpAddress::V6(_) => AddressFamily::Ipv6,
        }
    }

    /// The address of all zeros of a family.
    #[verifier::when_used_as_spec(spec_unspecified)]
    pub fn unspecified(family: AddressFamily) -> (r: IpAddress)
        ensures
            r == Self::spec_unspecified(family),
    {
        match family {
            AddressFamily::Ipv4 => IpAddress::V4(0),
            AddressFamily::Ipv6 => IpAddress::V6(0),
        }
    }
}

/// An IP address and a port.
#[derive(Clone, Copy, Debug, PartialEq, Eq, Structural)]
pub struct SocketAddress {
    pub ip: IpAddress,
    pub port: u16,
}

impl SocketAddress {
    /// The address of all zeros of a family, with port 0.
    pub open spec fn spec_unspecified(family: AddressFamily) -> SocketAddress {
        SocketAddress { ip: IpAddress::spec_unspecified(family), port: 0 }
    }

    /// The address of all zeros of a family, with port 0.
    #[verifier::when_used_as_spec(spec_unspecified)]
    pub fn unspecified(family: AddressFamily) -> (r: SocketAddress)
        ensures
            r == Self::spec_unspecified(family),
    {
        SocketAddress { ip: IpAddress::unspecified(family), port: 0 }
    }
}

/// The longest domain name that an upstream address holds, in bytes.
pub const MAX_DOMAIN_LEN: usize = 255;

/// The host of an upstream address.
#[derive(Debug)]
pub enum Host {
    Ip(IpAddress),
    /// A domain name, as its bytes.
    Domain(Vec<u8>),
}

/// A host as contracts see it.
pub enum HostView {
    Ip(IpAddress),
    Domain(Seq<u8>),
}

impl View for Host {
    type V = HostView;

    open spec fn view(&self) -> HostView {
        match self {
            Host::Ip(ip) => HostView::Ip(*ip),
            Host::Domain(d) => HostView::Domain(d@),
        }
    }
}

/// Where a packet goes to or comes from: a host and a port.
#[derive(Debug)]
pub struct UpstreamAddr {
    host: Host,
    port: u16,
}

/// An upstream address as contracts see it.
pub struct UpstreamAddrView {
    pub host: HostView,
    pub port: u16,
}

impl View for UpstreamAddr {
    type V = UpstreamAddrView;

    closed spec fn view(&self) -> UpstreamAddrView {
        UpstreamAddrView { host: self.host@, port: self.port }
    }
}

impl UpstreamAddrView {
    /// Whether a domain name, if that is the host, has between one and
    /// [`MAX_DOMAIN_LEN`] bytes.
    pub open spec fn wf(self) -> bool {
        self.host matches HostView::Domain(d) ==> 1 <= d.len() <= MAX_DOMAIN_LEN
    }
}

impl UpstreamAddr {
    #[verifier::type_invariant]
    spec fn domain_sized(&self) -> bool {
        self@.wf()
    }

    /// The upstream address of an IP address and a port.
    pub fn from_socket_addr(addr: SocketAddress) -> (r: Self)
        ensures
            r@ == (UpstreamAddrView { host: HostView::Ip(addr.ip), port: addr.port }),
            r@.wf(),
    {
        UpstreamAddr { host: Host::Ip(addr.ip), port: addr.port }
    }

    /// The upstream address of a domain name and a port, unless the name
    /// is empty or longer than [`MAX_DOMAIN_LEN`] bytes.
    pub fn from_domain(domain: Vec<u8>, port: u16) -> (r: Option<Self>)
        ensures
            r is Some <==> 1 <= domain@.len() <= MAX_DOMAIN_LEN,
            r matches Some(a) ==> a@ == (UpstreamAddrView {
                host: HostView::Domain(domain@),
                port,
            }) && a@.wf(),
    {
        if domain.len() == 0 || domain.len() > MAX_DOMAIN_LEN {
            None
        } else {
            Some(UpstreamAddr { host: Host::Domain(domain), port })
        }
    }

    /// The host.
    pub fn host(&self) -> (r: &Host)
        ensures
            r@ == self@.host,
            self@.wf(),
    {
        proof {
            use_type_invariant(self);
        }
        &self.host
    }

    /// The port.
    pub fn port(&self) -> (r: u16)
        ensures
            r == self@.port,
    {
        self.port
    }
}

} // verus!
