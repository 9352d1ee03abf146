//! UDP relay endpoints: addresses, the SOCKS5 UDP header, which socket to
//! receive from, which port to bind, and how a listening socket is set up.

pub mod addr;
pub mod connect_send;
pub mod listen;
pub mod port_pick;
pub mod relay_recv;
pub mod socks5;
