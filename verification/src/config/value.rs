//! Configuration values, typed.

use vstd::prelude::*;

use crate::udp::addr::{AddressFamily, SocketAddress};

verus! {

/// A span of time.
#[derive(Clone, Copy, Debug, PartialEq, Eq, Structural)]
pub struct ConfigDuration {
    pub secs: u64,
    /// The part below one second, in nanoseconds.
    pub subsec_nanos: u32,
}

impl ConfigDuration {
    /// A span of whole seconds.
    pub open spec fn spec_from_secs(secs: u64) -> ConfigDuration {
        ConfigDuration { secs, subsec_nanos: 0 }
    }

    /// A span of whole seconds.
    #[verifier::when_used_as_spec(spec_from_secs)]
    pub fn from_secs(secs: u64) -> (r: ConfigDuration)
        ensures
            r == Self::spec_from_secs(secs),
    {
        ConfigDuration { secs, subsec_nanos: 0 }
    }

    /// Whether the span is longer than `secs` whole seconds.
    pub fn longer_than_secs(&self, secs: u64) -> (r: bool)
        ensures
            r == (self.secs > secs || (self.secs == secs && self.subsec_nanos > 0)),
    {
        self.secs > secs || (self.secs == secs && self.subsec_nanos > 0)
    }

    /// The span, cut to `max_secs` whole seconds if it is longer.
    pub open spec fn capped(self, max_secs: u64) -> ConfigDuration {
        if self.secs > max_secs || (self.secs == max_secs && self.subsec_nanos > 0) {
            Self::spec_from_secs(max_secs)
        } else {
            self
        }
    }
}

/// The kinds of value that a key can ask for.
#[derive(Clone, Copy, Debug, PartialEq, Eq, Structural)]
pub enum ValueKind {
    /// Any value at all; it is ignored.
    Any,
    Bool,
    Usize,
    U32,
    Duration,
    /// The name of a node: a server, an escaper, an auditor.
    Name,
    /// A text of ASCII characters.
    Ascii,
    /// A listen address with its options.
    Listen,
    /// A table of hosts.
    Hosts,
    /// A value whose form is not this library's business.
    Raw,
}

/// How a TCP server listens: the address, and whatever else is configured
/// of the socket, kept as given.
#[derive(Debug)]
pub struct TcpListenConfig {
    pub address: SocketAddress,
    pub options: String,
}

/// A listen configuration as contracts see it.
pub struct TcpListenView {
    pub address: SocketAddress,
    pub options: Seq<char>,
}

impl TcpListenView {
    /// The configuration of a server of which no listen address is
    /// configured: the unspecified IPv6 address, and no port.
    pub open spec fn init() -> TcpListenView {
        TcpListenView {
            address: SocketAddress::spec_unspecified(AddressFamily::Ipv6),
            options: Seq::empty(),
        }
    }

    /// Whether a server can listen as configured: it needs a port.
    pub open spec fn valid(self) -> bool {
        self.address.port != 0
    }
}

impl View for TcpListenConfig {
    type V = TcpListenView;

    open spec fn view(&self) -> TcpListenView {
        TcpListenView { address: self.address, options: self.options@ }
    }
}

impl TcpListenConfig {
    /// The configuration of a server of which no listen address is
    /// configured.
    pub fn new() -> (r: Self)
        ensures
            r@ == TcpListenView::init(),
    {
        TcpListenConfig {
            address: SocketAddress::unspecified(AddressFamily::Ipv6),
            options: String::new(),
        }
    }

    /// Checks that a server can listen as configured.
    pub fn check(&self) -> (r: Result<(), ConfigError>)
        ensures
            r == (if self@.valid() {
                Ok::<(), ConfigError>(())
            } else {
                Err::<(), ConfigError>(ConfigError::NoListenPortSet)
            }),
    {
        if self.address.port == 0 {
            Err(ConfigError::NoListenPortSet)
        } else {
            Ok(())
        }
    }

    /// Whether two servers listen alike: on the same address, with the
    /// same options.
    pub fn same(&self, other: &TcpListenConfig) -> (r: bool)
        ensures
            r == (self@ == other@),
    {
        self.address == other.address && text_eq(&self.options, &other.options)
    }

    /// A copy of the configuration.
    pub fn duplicate(&self) -> (r: Self)
        ensures
            r@ == self@,
    {
        TcpListenConfig { address: self.address, options: self.options.clone() }
    }
}

/// The hosts that a server serves: how many there are, and what is
/// configured of them, kept as given.
#[derive(Debug)]
pub struct HostTable {
    pub count: usize,
    pub text: String,
}

/// A table of hosts as contracts see it.
pub struct HostTableView {
    pub count: usize,
    pub text: Seq<char>,
}

impl HostTableView {
    /// The table of a server of which no host is configured.
    pub open spec fn init() -> HostTableView {
        HostTableView { count: 0, text: Seq::empty() }
    }

    /// Whether the table holds no host.
    pub open spec fn spec_is_empty(self) -> bool {
        self.count == 0
    }
}

impl View for HostTable {
    type V = HostTableView;

    open spec fn view(&self) -> HostTableView {
        HostTableView { count: self.count, text: self.text@ }
    }
}

impl HostTable {
    /// The table of a server of which no host is configured.
    pub fn new() -> (r: Self)
        ensures
            r@ == HostTableView::init(),
    {
        HostTable { count: 0, text: String::new() }
    }

    /// Whether the table holds no host.
    pub fn is_empty(&self) -> (r: bool)
        ensures
            r == self@.spec_is_empty(),
    {
        self.count == 0
    }

    /// Whether two tables are the same.
    pub fn same(&self, other: &HostTable) -> (r: bool)
        ensures
            r == (self@ == other@),
    {
        self.count == other.count && text_eq(&self.text, &other.text)
    }

    /// A copy of the table.
    pub fn duplicate(&self) -> (r: Self)
        ensures
            r@ == self@,
    {
        HostTable { count: self.count, text: self.text.clone() }
    }
}

/// A configuration value.
#[derive(Debug)]
pub enum ConfigValue {
    Bool(bool),
    Usize(usize),
    U32(u32),
    Duration(ConfigDuration),
    Name(String),
    Ascii(String),
    Listen(TcpListenConfig),
    Hosts(HostTable),
    Raw(String),
}

/// A configuration value as contracts see it.
pub enum ConfigValueView {
    Bool(bool),
    Usize(usize),
    U32(u32),
    Duration(ConfigDuration),
    Name(Seq<char>),
    Ascii(Seq<char>),
    Listen(TcpListenView),
    Hosts(HostTableView),
    Raw(Seq<char>),
}

impl View for ConfigValue {
    type V = ConfigValueView;

    open spec fn view(&self) -> ConfigValueView {
        match self {
            ConfigValue::Bool(b) => ConfigValueView::Bool(*b),
            ConfigValue::Usize(n) => ConfigValueView::Usize(*n),
            ConfigValue::U32(n) => ConfigValueView::U32(*n),
            ConfigValue::Duration(d) => ConfigValueView::Duration(*d),
            ConfigValue::Name(s) => ConfigValueView::Name(s@),
            ConfigValue::Ascii(s) => ConfigValueView::Ascii(s@),
            ConfigValue::Listen(l) => ConfigValueView::Listen(l@),
            ConfigValue::Hosts(h) => ConfigValueView::Hosts(h@),
            ConfigValue::Raw(s) => ConfigValueView::Raw(s@),
        }
    }
}

impl ConfigValueView {
    /// The kind of the value.
    pub open spec fn kind(self) -> ValueKind {
        match self {
            ConfigValueView::Bool(_) => ValueKind::Bool,
            ConfigValueView::Usize(_) => ValueKind::Usize,
            ConfigValueView::U32(_) => ValueKind::U32,
            ConfigValueView::Duration(_) => ValueKind::Duration,
            ConfigValueView::Name(_) => ValueKind::Name,
            ConfigValueView::Ascii(_) => ValueKind::Ascii,
            ConfigValueView::Listen(_) => ValueKind::Listen,
            ConfigValueView::Hosts(_) => ValueKind::Hosts,
            ConfigValueView::Raw(_) => ValueKind::Raw,
        }
    }

    /// Whether the value can be given where `kind` is asked for. A text
    /// that is given as ASCII must be ASCII.
    pub open spec fn fits(self, kind: ValueKind) -> bool {
        kind is Any || (self.kind() == kind && (self matches ConfigValueView::Ascii(s)
            ==> vstd::utf8::is_ascii_chars(s)))
    }
}

impl ConfigValue {
    /// The kind of the value.
    pub fn kind(&self) -> (r: ValueKind)
        ensures
            r == self@.kind(),
    {
        match self {
            ConfigValue::Bool(_) => ValueKind::Bool,
            ConfigValue::Usize(_) => ValueKind::Usize,
            ConfigValue::U32(_) => ValueKind::U32,
            ConfigValue::Duration(_) => ValueKind::Duration,
            ConfigValue::Name(_) => ValueKind::Name,
            ConfigValue::Ascii(_) => ValueKind::Ascii,
            ConfigValue::Listen(_) => ValueKind::Listen,
            ConfigValue::Hosts(_) => ValueKind::Hosts,
            ConfigValue::Raw(_) => ValueKind::Raw,
        }
    }

    /// Whether the value can be given where `kind` is asked for.
    pub fn fits(&self, kind: ValueKind) -> (r: bool)
        ensures
            r == self@.fits(kind),
    {
        match kind {
            ValueKind::Any => true,
            _ => {
                if !kind_eq(self.kind(), kind) {
                    false
                } else {
                    match self {
                        ConfigValue::Ascii(s) => s.as_str().is_ascii(),
                        _ => true,
                    }
                }
            },
        }
    }
}

/// Whether two kinds are the same.
pub fn kind_eq(a: ValueKind, b: ValueKind) -> (r: bool)
    ensures
        r == (a == b),
{
    a == b
}

/// Why a configuration is not accepted.
#[derive(Clone, Copy, Debug, PartialEq, Eq, Structural)]
pub enum ConfigError {
    /// The key is not one that the server knows.
    InvalidKey,
    /// The value is not of the kind that the key asks for.
    InvalidValue(ValueKind),
    /// The server has no name.
    NameNotSet,
    /// The server has no escaper.
    EscaperNotSet,
    /// The server has no port to listen on.
    NoListenPortSet,
    /// The server has no host.
    NoHostConfigSet,
}

/// What a change of configuration asks of a running server.
#[derive(Clone, Copy, Debug, PartialEq, Eq, Structural)]
pub enum ServerConfigDiffAction {
    /// Nothing has changed.
    NoAction,
    /// The new configuration is for another type of server: start a new
    /// one.
    SpawnNew,
    /// The way the server listens has changed: reload and listen anew.
    ReloadAndRespawn,
    /// Something else has changed: reload and keep listening.
    ReloadNoRespawn,
}

/// What a change of configuration asks of a running server, given whether
/// the new configuration is for the same type of server, whether it is the
/// same in every respect, and whether the server listens as before.
pub open spec fn diff_action_of(same_type: bool, same: bool, same_listen: bool)
    -> ServerConfigDiffAction {
    if !same_type {
        ServerConfigDiffAction::SpawnNew
    } else if same {
        ServerConfigDiffAction::NoAction
    } else if !same_listen {
        ServerConfigDiffAction::ReloadAndRespawn
    } else {
        ServerConfigDiffAction::ReloadNoRespawn
    }
}

/// Where in which document a configuration was found.
#[derive(Debug)]
pub struct YamlDocPosition {
    pub path: String,
    pub index: usize,
}

/// Whether two texts are the same.
pub fn text_eq(a: &String, b: &String) -> (r: bool)
    ensures
        r == (a@ == b@),
{
    *a == *b
}

/// Whether two texts that may be missing are the same.
pub fn opt_text_eq(a: &Option<String>, b: &Option<String>) -> (r: bool)
    ensures
        r == (match (*a, *b) {
            (Some(x), Some(y)) => x@ == y@,
            (None, None) => true,
            _ => false,
        }),
{
    match (a, b) {
        (Some(x), Some(y)) => text_eq(x, y),
        (None, None) => true,
        _ => false,
    }
}

/// The view of a text that may be missing.
pub open spec fn opt_text(a: Option<String>) -> Option<Seq<char>> {
    match a {
        Some(s) => Some(s@),
        None => None,
    }
}

} // verus!
