//! Choosing the port of a socket that is to be bound within a range.
//!
//! A few ports are tried at random first; if none of them can be bound,
//! every port of the range is tried in order.

use vstd::prelude::*;

use crate::udp::addr::{AddressFamily, IpAddress, SocketAddress};

verus! {

/// The most ports that are tried at random.
pub const MAX_RANDOM_TRIES: usize = 10;

/// A range of ports, both ends included.
#[derive(Clone, Copy, Debug, PartialEq, Eq, Structural)]
pub struct PortRange {
    start: u16,
    end: u16,
}

impl PortRange {
    /// The first port of the range.
    pub closed spec fn spec_start(&self) -> u16 {
        self.start
    }

    /// The last port of the range.
    pub closed spec fn spec_end(&self) -> u16 {
        self.end
    }

    /// The number of ports in the range.
    pub open spec fn spec_count(&self) -> nat {
        (self.spec_end() - self.spec_start() + 1) as nat
    }

    #[verifier::type_invariant]
    spec fn ends_in_order(&self) -> bool {
        self.start <= self.end
    }

    /// The range from `start` to `end`, unless `end` lies below `start`.
    pub fn new(start: u16, end: u16) -> (r: Option<Self>)
        ensures
            r is Some <==> start <= end,
            r matches Some(p) ==> p.spec_start() == start && p.spec_end() == end,
    {
        if start <= end {
            Some(PortRange { start, end })
        } else {
            None
        }
    }

    /// The first port of the range.
    #[verifier::when_used_as_spec(spec_start)]
    pub fn start(&self) -> (r: u16)
        ensures
            r == self.spec_start(),
            r <= self.spec_end(),
    {
        proof {
            use_type_invariant(self);
        }
        self.start
    }

    /// The last port of the range.
    #[verifier::when_used_as_spec(spec_end)]
    pub fn end(&self) -> (r: u16)
        ensures
            r == self.spec_end(),
            self.spec_start() <= r,
    {
        proof {
            use_type_invariant(self);
        }
        self.end
    }

    /// The number of ports in the range.
    pub fn count(&self) -> (r: usize)
        ensures
            r == self.spec_count(),
            r >= 1,
    {
        proof {
            use_type_invariant(self);
        }
        (self.end - self.start) as usize + 1
    }
}

/// The address that a socket which connects later is bound to: the given
/// IP address, or the unspecified IPv6 address if none is given, with a
/// port that the system chooses.
pub fn lazy_connect_bind_addr(bind_ip: Option<IpAddress>) -> (r: SocketAddress)
    ensures
        r == (SocketAddress {
            ip: match bind_ip {
                Some(ip) => ip,
                None => IpAddress::spec_unspecified(AddressFamily::Ipv6),
            },
            port: 0,
        }),
{
    match bind_ip {
        Some(ip) => SocketAddress { ip, port: 0 },
        None => SocketAddress { ip: IpAddress::unspecified(AddressFamily::Ipv6), port: 0 },
    }
}

/// A port drawn at random from `start` to `end`, both included, by
/// `fastrand::u16`. All that is claimed of the port is that it lies in the
/// range; an empty range, on which `fastrand` panics, is left out.
#[verifier::external_body]
fn random_port(start: u16, end: u16) -> (r: u16)
    requires
        start <= end,
    ensures
        start <= r <= end,
{
    fastrand::u16(start..=end)
}

/// The state of a port choice as contracts see it.
pub struct PortPickView {
    pub start: u16,
    pub end: u16,
    /// How many ports are still to be drawn at random.
    pub random_left: nat,
    /// The next port to try in order; one past `end` when all were tried.
    pub next_in_order: nat,
}

impl PortPickView {
    /// The state before any port was tried.
    pub open spec fn init(start: u16, end: u16) -> PortPickView {
        PortPickView {
            start,
            end,
            random_left: if end - start + 1 < MAX_RANDOM_TRIES {
                (end - start + 1) as nat
            } else {
                MAX_RANDOM_TRIES as nat
            },
            next_in_order: start as nat,
        }
    }

    /// How many ports are still to be handed out.
    pub open spec fn tries_left(self) -> nat {
        (self.random_left + (self.end + 1 - self.next_in_order)) as nat
    }
}

/// Hands out the ports to try, one after another.
pub struct InRangePortPicker {
    start: u16,
    end: u16,
    random_left: usize,
    next_in_order: u32,
}

impl View for InRangePortPicker {
    type V = PortPickView;

    closed spec fn view(&self) -> PortPickView {
        PortPickView {
            start: self.start,
            end: self.end,
            random_left: self.random_left as nat,
            next_in_order: self.next_in_order as nat,
        }
    }
}

impl InRangePortPicker {
    /// Whether the state is one that a port choice can be in.
    pub open spec fn wf(&self) -> bool {
        &&& self@.start <= self@.end
        &&& self@.start <= self@.next_in_order <= self@.end + 1
        &&& self@.random_left <= MAX_RANDOM_TRIES
    }

    /// A choice among the ports of `port`: as many random tries as the
    /// range has ports, [`MAX_RANDOM_TRIES`] at most, then every port in
    /// order.
    pub fn new(port: PortRange) -> (r: Self)
        ensures
            r.wf(),
            r@ == PortPickView::init(port.spec_start(), port.spec_end()),
    {
        let count: usize = port.count();
        let tries: usize = if count < MAX_RANDOM_TRIES {
            count
        } else {
            MAX_RANDOM_TRIES
        };
        InRangePortPicker {
            start: port.start(),
            end: port.end(),
            random_left: tries,
            next_in_order: port.start() as u32,
        }
    }

    /// The next port to try to bind, or `None` when every port of the
    /// range has been tried and none can be selected. While random tries
    /// are left the port is some port of the range; after that the ports
    /// of the range come in order, each once.
    pub fn next_port(&mut self) -> (r: Option<u16>)
        requires
            old(self).wf(),
        ensures
            final(self).wf(),
            final(self)@.start == old(self)@.start,
            final(self)@.end == old(self)@.end,
            r is Some <==> old(self)@.tries_left() > 0,
            r is Some ==> final(self)@.tries_left() == old(self)@.tries_left() - 1,
            r matches Some(p) ==> old(self)@.start <= p <= old(self)@.end,
            old(self)@.random_left > 0 ==> {
                &&& final(self)@.random_left == old(self)@.random_left - 1
                &&& final(self)@.next_in_order == old(self)@.next_in_order
            },
            old(self)@.random_left == 0 ==> {
                &&& final(self)@.random_left == 0
                &&& r matches Some(p) ==> p == old(self)@.next_in_order
                    && final(self)@.next_in_order == p + 1
                &&& r is None ==> *final(self) == *old(self)
            },
    {
        if self.random_left > 0 {
            self.random_left = self.random_left - 1;
            Some(random_port(self.start, self.end))
        } else if self.next_in_order <= self.end as u32 {
            let p: u16 = self.next_in_order as u16;
            self.next_in_order = self.next_in_order + 1;
            Some(p)
        } else {
            None
        }
    }
}

} // verus!
