//! How a listening UDP socket is set up: which options are set, and in
//! which order, before and after it is bound.

use vstd::prelude::*;

use crate::udp::addr::{AddressFamily, SocketAddress};

verus! {

/// The sizes of the buffers of a socket; `None` leaves a size to the
/// system.
#[derive(Clone, Copy, Debug, PartialEq, Eq, Structural)]
pub struct SocketBufferConfig {
    pub recv_size: Option<usize>,
    pub send_size: Option<usize>,
}

/// How a UDP socket listens.
#[derive(Debug)]
pub struct UdpListenConfig {
    address: SocketAddress,
    ipv6only: Option<bool>,
    interface: Option<String>,
    socket_buffer: SocketBufferConfig,
}

/// A listen configuration as contracts see it.
pub struct UdpListenView {
    pub address: SocketAddress,
    pub ipv6only: Option<bool>,
    pub interface: Option<Seq<char>>,
    pub socket_buffer: SocketBufferConfig,
}

/// One thing to do to a socket that is to listen.
#[derive(Clone, Copy, Debug, PartialEq, Eq, Structural)]
pub enum ListenStep {
    /// Allow the address to be used again at once.
    SetAddrReuse,
    /// Restrict the socket to IPv6, or open it to IPv4 as well.
    SetOnlyV6(bool),
    /// Bind the socket to this address.
    Bind(SocketAddress),
    /// Bind the socket to the configured interface.
    BindDevice,
    /// Ask for the destination address of every packet received.
    SetRecvPktInfo,
    /// Set the further options of the socket.
    SetMiscOpts,
}

impl UdpListenView {
    /// The steps that set up a socket which listens on `addr`: the address
    /// is made reusable and the IPv6 restriction is set, if one is
    /// configured, before the socket is bound; the interface is bound, if
    /// `with_interface` says so and one is configured, and the remaining
    /// options are set after.
    pub open spec fn steps(self, addr: SocketAddress, with_interface: bool) -> Seq<ListenStep> {
        seq![ListenStep::SetAddrReuse] + (match self.ipv6only {
            Some(enable) => seq![ListenStep::SetOnlyV6(enable)],
            None => Seq::empty(),
        }) + seq![ListenStep::Bind(addr)] + (if with_interface && self.interface is Some {
            seq![ListenStep::BindDevice]
        } else {
            Seq::empty()
        }) + seq![ListenStep::SetRecvPktInfo, ListenStep::SetMiscOpts]
    }
}

impl View for UdpListenConfig {
    type V = UdpListenView;

    closed spec fn view(&self) -> UdpListenView {
        UdpListenView {
            address: self.address,
            ipv6only: self.ipv6only,
            interface: match self.interface {
                Some(s) => Some(s@),
                None => None,
            },
            socket_buffer: self.socket_buffer,
        }
    }
}

impl Default for UdpListenConfig {
    /// A configuration that listens on the unspecified IPv6 address, on a
    /// port that the system chooses.
    fn default() -> (r: Self)
        ensures
            r@ == (UdpListenView {
                address: SocketAddress::spec_unspecified(AddressFamily::Ipv6),
                ipv6only: None,
                interface: None,
                socket_buffer: SocketBufferConfig { recv_size: None, send_size: None },
            }),
    {
        UdpListenConfig {
            address: SocketAddress::unspecified(AddressFamily::Ipv6),
            ipv6only: None,
            interface: None,
            socket_buffer: SocketBufferConfig { recv_size: None, send_size: None },
        }
    }
}

impl UdpListenConfig {
    /// The address to listen on.
    pub fn address(&self) -> (r: SocketAddress)
        ensures
            r == self@.address,
    {
        self.address
    }

    /// Sets the address to listen on.
    pub fn set_socket_address(&mut self, addr: SocketAddress)
        ensures
            final(self)@ == (UdpListenView { address: addr, ..old(self)@ }),
    {
        self.address = addr;
    }

    /// Whether the socket is restricted to IPv6, if that is configured.
    pub fn is_ipv6only(&self) -> (r: Option<bool>)
        ensures
            r == self@.ipv6only,
    {
        self.ipv6only
    }

    /// Restricts the socket to IPv6, or opens it to IPv4 as well.
    pub fn set_ipv6_only(&mut self, ipv6only: bool)
        ensures
            final(self)@ == (UdpListenView { ipv6only: Some(ipv6only), ..old(self)@ }),
    {
        self.ipv6only = Some(ipv6only);
    }

    /// The interface to listen on, if one is configured.
    pub fn interface(&self) -> (r: &Option<String>)
        ensures
            (match *r {
                Some(s) => Some(s@),
                None => None,
            }) == self@.interface,
    {
        &self.interface
    }

    /// Sets the interface to listen on.
    pub fn set_interface(&mut self, interface: String)
        ensures
            final(self)@ == (UdpListenView { interface: Some(interface@), ..old(self)@ }),
    {
        self.interface = Some(interface);
    }

    /// The sizes of the buffers of the socket.
    pub fn socket_buffer(&self) -> (r: SocketBufferConfig)
        ensures
            r == self@.socket_buffer,
    {
        self.socket_buffer
    }

    /// Sets the sizes of the buffers of the socket.
    pub fn set_socket_buffer(&mut self, socket_buffer: SocketBufferConfig)
        ensures
            final(self)@ == (UdpListenView { socket_buffer, ..old(self)@ }),
    {
        self.socket_buffer = socket_buffer;
    }

    fn steps(&self, addr: SocketAddress, with_interface: bool) -> (r: Vec<ListenStep>)
        ensures
            r@ == self@.steps(addr, with_interface),
    {
        let mut steps: Vec<ListenStep> = Vec::new();
        steps.push(ListenStep::SetAddrReuse);
        if let Some(enable) = self.ipv6only {
            steps.push(ListenStep::SetOnlyV6(enable));
        }
        steps.push(ListenStep::Bind(addr));
        if with_interface && self.interface.is_some() {
            steps.push(ListenStep::BindDevice);
        }
        steps.push(ListenStep::SetRecvPktInfo);
        steps.push(ListenStep::SetMiscOpts);
        assert(steps@ =~= self@.steps(addr, with_interface));
        steps
    }

    /// The steps that set up a socket which listens as configured, in
    /// order.
    pub fn bind_listen_steps(&self) -> (r: Vec<ListenStep>)
        ensures
            r@ == self@.steps(self@.address, true),
    {
        self.steps(self.address, true)
    }

    /// The steps that set up a socket which listens as configured, but on
    /// `addr`, the address that an earlier socket was bound to, and on no
    /// interface in particular.
    pub fn rebind_listen_steps(&self, addr: SocketAddress) -> (r: Vec<ListenStep>)
        ensures
            r@ == self@.steps(addr, false),
    {
        self.steps(addr, false)
    }
}

/// A socket is bound exactly once, after its address was made reusable and
/// after the IPv6 restriction was set, and before anything else is done to
/// it.
pub proof fn lemma_bind_comes_in_between(
    c: UdpListenView,
    addr: SocketAddress,
    with_interface: bool,
)
    ensures
        ({
            let steps = c.steps(addr, with_interface);
            let at = if c.ipv6only is Some {
                2int
            } else {
                1int
            };
            &&& steps[0] == ListenStep::SetAddrReuse
            &&& steps[at] == ListenStep::Bind(addr)
            &&& forall|i: int| 0 <= i < steps.len() && i != at ==> !(#[trigger] steps[i] is Bind)
            &&& forall|i: int|
                0 <= i < at ==> #[trigger] steps[i] is SetAddrReuse || steps[i] is SetOnlyV6
            &&& steps.last() == ListenStep::SetMiscOpts
        }),
{
}

} // verus!
