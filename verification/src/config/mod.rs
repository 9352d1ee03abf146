//! Server configuration: which keys a server accepts, what each of them
//! sets, and what a change of configuration asks of a running server.
//!
//! Values arrive typed. What a rule set or a speed limit looks like in a
//! configuration file is the business of whoever reads the file; such
//! values are kept as given and compared as text. Of a listen
//! configuration the address is held, and of a host table the number of
//! hosts, since a server cannot do without a port and a host.

pub mod common;
pub mod key;
pub mod openssl_proxy;
pub mod tcp_tproxy;
pub mod value;
