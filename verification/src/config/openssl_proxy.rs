//! The configuration of a TLS-terminating proxy server.

use vstd::prelude::*;
use vstd::string::StringSliceAdditionalSpecFns;

use crate::config::common::{
    opt_position, CommonServerConfig, CommonView, KeyMatch, ServerConfigKey,
};
use crate::config::key::{key_is, normal_key, normalize};
use crate::config::tcp_tproxy::entries_view;
use crate::config::value::{
    diff_action_of, opt_text, opt_text_eq, ConfigDuration, ConfigError, ConfigValue,
    ConfigValueView, HostTable, HostTableView, ServerConfigDiffAction, ValueKind, YamlDocPosition,
};

verus! {

/// The type of the server, as configurations name it.
pub const SERVER_CONFIG_TYPE: &'static str = "OpensslProxy";

/// The seconds that a client has to send its hello where none are
/// configured.
pub const DEFAULT_CLIENT_HELLO_RECV_TIMEOUT_SECS: u64 = 10;

/// The largest client hello accepted where no size is configured.
pub const DEFAULT_CLIENT_HELLO_MAX_SIZE: u32 = 16384;

/// The seconds that a handshake may take where none are configured.
pub const DEFAULT_ACCEPT_TIMEOUT_SECS: u64 = 60;

/// The setting that the normal form `n` of a key stands for. The speed limit
/// of a socket has two deprecated spellings.
#[verifier::opaque]
pub open spec fn openssl_key_of(n: Seq<u8>) -> Option<KeyMatch> {
    if n == "type".spec_bytes() {
        Some(KeyMatch { key: ServerConfigKey::Type, deprecated: false })
    } else if n == "name".spec_bytes() {
        Some(KeyMatch { key: ServerConfigKey::Name, deprecated: false })
    } else if n == "shared_logger".spec_bytes() {
        Some(KeyMatch { key: ServerConfigKey::SharedLogger, deprecated: false })
    } else if n == "extra_metrics_tags".spec_bytes() {
        Some(KeyMatch { key: ServerConfigKey::ExtraMetricsTags, deprecated: false })
    } else if n == "listen".spec_bytes() {
        Some(KeyMatch { key: ServerConfigKey::Listen, deprecated: false })
    } else if n == "listen_in_worker".spec_bytes() {
        Some(KeyMatch { key: ServerConfigKey::ListenInWorker, deprecated: false })
    } else if n == "ingress_network_filter".spec_bytes() || n == "ingress_net_filter".spec_bytes() {
        Some(KeyMatch { key: ServerConfigKey::IngressNetFilter, deprecated: false })
    } else if n == "client_hello_recv_timeout".spec_bytes() {
        Some(KeyMatch { key: ServerConfigKey::ClientHelloRecvTimeout, deprecated: false })
    } else if n == "client_hello_max_size".spec_bytes() {
        Some(KeyMatch { key: ServerConfigKey::ClientHelloMaxSize, deprecated: false })
    } else if n == "accept_timeout".spec_bytes() || n == "handshake_timeout".spec_bytes() || n
        == "negotiation_timeout".spec_bytes() {
        Some(KeyMatch { key: ServerConfigKey::AcceptTimeout, deprecated: false })
    } else if n == "virtual_hosts".spec_bytes() || n == "hosts".spec_bytes() {
        Some(KeyMatch { key: ServerConfigKey::Hosts, deprecated: false })
    } else if n == "tcp_sock_speed_limit".spec_bytes() {
        Some(KeyMatch { key: ServerConfigKey::TcpSockSpeedLimit, deprecated: false })
    } else if n == "tcp_conn_speed_limit".spec_bytes() || n == "conn_limit".spec_bytes() {
        Some(KeyMatch { key: ServerConfigKey::TcpSockSpeedLimit, deprecated: true })
    } else if n == "task_idle_check_duration".spec_bytes() {
        Some(KeyMatch { key: ServerConfigKey::TaskIdleCheckDuration, deprecated: false })
    } else if n == "task_idle_max_count".spec_bytes() {
        Some(KeyMatch { key: ServerConfigKey::TaskIdleMaxCount, deprecated: false })
    } else if n == "flush_task_log_on_created".spec_bytes() {
        Some(KeyMatch { key: ServerConfigKey::FlushTaskLogOnCreated, deprecated: false })
    } else if n == "flush_task_log_on_connected".spec_bytes() {
        Some(KeyMatch { key: ServerConfigKey::FlushTaskLogOnConnected, deprecated: false })
    } else if n == "task_log_flush_interval".spec_bytes() {
        Some(KeyMatch { key: ServerConfigKey::TaskLogFlushInterval, deprecated: false })
    } else if n == "tcp_copy_buffer_size".spec_bytes() {
        Some(KeyMatch { key: ServerConfigKey::TcpCopyBufferSize, deprecated: false })
    } else if n == "tcp_copy_yield_size".spec_bytes() {
        Some(KeyMatch { key: ServerConfigKey::TcpCopyYieldSize, deprecated: false })
    } else if n == "tcp_misc_opts".spec_bytes() {
        Some(KeyMatch { key: ServerConfigKey::TcpMiscOpts, deprecated: false })
    } else if n == "tls_ticketer".spec_bytes() {
        Some(KeyMatch { key: ServerConfigKey::TlsTicketer, deprecated: false })
    } else if n == "spawn_task_unconstrained".spec_bytes() || n
        == "task_unconstrained".spec_bytes() {
        Some(KeyMatch { key: ServerConfigKey::SpawnTaskUnconstrained, deprecated: false })
    } else if n == "alert_unrecognized_name".spec_bytes() {
        Some(KeyMatch { key: ServerConfigKey::AlertUnrecognizedName, deprecated: false })
    } else {
        None
    }
}

/// The setting that the key `k` stands for, if it is a key of this server.
pub fn openssl_key(k: &str) -> (r: Option<KeyMatch>)
    ensures
        r == openssl_key_of(normal_key(k.spec_bytes())),
{
    reveal(openssl_key_of);
    let n = normalize(k);
    if key_is(&n, "type") {
        Some(KeyMatch { key: ServerConfigKey::Type, deprecated: false })
    } else if key_is(&n, "name") {
        Some(KeyMatch { key: ServerConfigKey::Name, deprecated: false })
    } else if key_is(&n, "shared_logger") {
        Some(KeyMatch { key: ServerConfigKey::SharedLogger, deprecated: false })
    } else if key_is(&n, "extra_metrics_tags") {
        Some(KeyMatch { key: ServerConfigKey::ExtraMetricsTags, deprecated: false })
    } else if key_is(&n, "listen") {
        Some(KeyMatch { key: ServerConfigKey::Listen, deprecated: false })
    } else if key_is(&n, "listen_in_worker") {
        Some(KeyMatch { key: ServerConfigKey::ListenInWorker, deprecated: false })
    } else if key_is(&n, "ingress_network_filter") || key_is(&n, "ingress_net_filter") {
        Some(KeyMatch { key: ServerConfigKey::IngressNetFilter, deprecated: false })
    } else if key_is(&n, "client_hello_recv_timeout") {
        Some(KeyMatch { key: ServerConfigKey::ClientHelloRecvTimeout, deprecated: false })
    } else if key_is(&n, "client_hello_max_size") {
        Some(KeyMatch { key: ServerConfigKey::ClientHelloMaxSize, deprecated: false })
    } else if key_is(&n, "accept_timeout") || key_is(&n, "handshake_timeout") || key_is(
        &n,
        "negotiation_timeout",
    ) {
        Some(KeyMatch { key: ServerConfigKey::AcceptTimeout, deprecated: false })
    } else if key_is(&n, "virtual_hosts") || key_is(&n, "hosts") {
        Some(KeyMatch { key: ServerConfigKey::Hosts, deprecated: false })
    } else if key_is(&n, "tcp_sock_speed_limit") {
        Some(KeyMatch { key: ServerConfigKey::TcpSockSpeedLimit, deprecated: false })
    } else if key_is(&n, "tcp_conn_speed_limit") || key_is(&n, "conn_limit") {
        Some(KeyMatch { key: ServerConfigKey::TcpSockSpeedLimit, deprecated: true })
    } else if key_is(&n, "task_idle_check_duration") {
        Some(KeyMatch { key: ServerConfigKey::TaskIdleCheckDuration, deprecated: false })
    } else if key_is(&n, "task_idle_max_count") {
        Some(KeyMatch { key: ServerConfigKey::TaskIdleMaxCount, deprecated: false })
    } else if key_is(&n, "flush_task_log_on_created") {
        Some(KeyMatch { key: ServerConfigKey::FlushTaskLogOnCreated, deprecated: false })
    } else if key_is(&n, "flush_task_log_on_connected") {
        Some(KeyMatch { key: ServerConfigKey::FlushTaskLogOnConnected, deprecated: false })
    } else if key_is(&n, "task_log_flush_interval") {
        Some(KeyMatch { key: ServerConfigKey::TaskLogFlushInterval, deprecated: false })
    } else if key_is(&n, "tcp_copy_buffer_size") {
        Some(KeyMatch { key: ServerConfigKey::TcpCopyBufferSize, deprecated: false })
    } else if key_is(&n, "tcp_copy_yield_size") {
        Some(KeyMatch { key: ServerConfigKey::TcpCopyYieldSize, deprecated: false })
    } else if key_is(&n, "tcp_misc_opts") {
        Some(KeyMatch { key: ServerConfigKey::TcpMiscOpts, deprecated: false })
    } else if key_is(&n, "tls_ticketer") {
        Some(KeyMatch { key: ServerConfigKey::TlsTicketer, deprecated: false })
    } else if key_is(&n, "spawn_task_unconstrained") || key_is(&n, "task_unconstrained") {
        Some(KeyMatch { key: ServerConfigKey::SpawnTaskUnconstrained, deprecated: false })
    } else if key_is(&n, "alert_unrecognized_name") {
        Some(KeyMatch { key: ServerConfigKey::AlertUnrecognizedName, deprecated: false })
    } else {
        None
    }
}

/// The configuration as contracts see it.
pub struct OpensslProxyView {
    pub common: CommonView,
    pub client_hello_recv_timeout: ConfigDuration,
    pub client_hello_max_size: u32,
    pub accept_timeout: ConfigDuration,
    pub hosts: HostTableView,
    pub tls_ticketer: Option<Seq<char>>,
    pub spawn_task_unconstrained: bool,
    pub alert_unrecognized_name: bool,
}

impl OpensslProxyView {
    /// The configuration of a server of which nothing is configured.
    pub open spec fn init(position: Option<(Seq<char>, usize)>) -> OpensslProxyView {
        OpensslProxyView {
            common: CommonView::init(position),
            client_hello_recv_timeout: ConfigDuration::spec_from_secs(
                DEFAULT_CLIENT_HELLO_RECV_TIMEOUT_SECS,
            ),
            client_hello_max_size: DEFAULT_CLIENT_HELLO_MAX_SIZE,
            accept_timeout: ConfigDuration::spec_from_secs(DEFAULT_ACCEPT_TIMEOUT_SECS),
            hosts: HostTableView::init(),
            tls_ticketer: None,
            spawn_task_unconstrained: false,
            alert_unrecognized_name: false,
        }
    }

    /// The configuration after `key` was set to `v`, for a value that fits
    /// the key.
    pub open spec fn set(self, key: ServerConfigKey, v: ConfigValueView) -> OpensslProxyView {
        match (key, v) {
            (ServerConfigKey::ClientHelloRecvTimeout, ConfigValueView::Duration(d)) => {
                OpensslProxyView { client_hello_recv_timeout: d, ..self }
            },
            (ServerConfigKey::ClientHelloMaxSize, ConfigValueView::U32(n)) => OpensslProxyView {
                client_hello_max_size: n,
                ..self
            },
            (ServerConfigKey::AcceptTimeout, ConfigValueView::Duration(d)) => OpensslProxyView {
                accept_timeout: d,
                ..self
            },
            (ServerConfigKey::Hosts, ConfigValueView::Hosts(h)) => OpensslProxyView {
                hosts: h,
                ..self
            },
            (ServerConfigKey::TlsTicketer, ConfigValueView::Raw(s)) => OpensslProxyView {
                tls_ticketer: Some(s),
                ..self
            },
            (ServerConfigKey::SpawnTaskUnconstrained, ConfigValueView::Bool(b)) => {
                OpensslProxyView { spawn_task_unconstrained: b, ..self }
            },
            (ServerConfigKey::AlertUnrecognizedName, ConfigValueView::Bool(b)) => {
                OpensslProxyView { alert_unrecognized_name: b, ..self }
            },
            _ => OpensslProxyView { common: self.common.set(key, v), ..self },
        }
    }

    /// What setting the key with normal form `n` to `v` leads to: the
    /// configuration after it and the setting that the key stands for, or
    /// why the entry is not accepted.
    pub open spec fn set_entry(self, n: Seq<u8>, v: ConfigValueView) -> Result<
        (OpensslProxyView, KeyMatch),
        ConfigError,
    > {
        match openssl_key_of(n) {
            None => Err(ConfigError::InvalidKey),
            Some(m) => if v.fits(m.key.spec_kind()) {
                Ok((self.set(m.key, v), m))
            } else {
                Err(ConfigError::InvalidValue(m.key.spec_kind()))
            },
        }
    }

    /// What checking the configuration leads to. A server needs a name and
    /// at least one host; the idle check interval is cut to its maximum.
    pub open spec fn check(self) -> (OpensslProxyView, Result<(), ConfigError>) {
        if self.common.name.len() == 0 {
            (self, Err(ConfigError::NameNotSet))
        } else if self.hosts.spec_is_empty() {
            (self, Err(ConfigError::NoHostConfigSet))
        } else {
            (OpensslProxyView { common: self.common.checked(), ..self }, Ok(()))
        }
    }

    /// What setting the entries one after another leads to, up to the
    /// first that is not accepted.
    pub open spec fn set_all(self, entries: Seq<(Seq<u8>, ConfigValueView)>) -> Result<
        OpensslProxyView,
        ConfigError,
    >
        decreases entries.len(),
    {
        if entries.len() == 0 {
            Ok(self)
        } else {
            match self.set_all(entries.drop_last()) {
                Err(e) => Err(e),
                Ok(c) => match c.set_entry(normal_key(entries.last().0), entries.last().1) {
                    Err(e) => Err(e),
                    Ok((c2, _)) => Ok(c2),
                },
            }
        }
    }
}

/// The configuration of a TLS-terminating proxy server.
#[derive(Debug)]
pub struct OpensslProxyServerConfig {
    common: CommonServerConfig,
    client_hello_recv_timeout: ConfigDuration,
    client_hello_max_size: u32,
    accept_timeout: ConfigDuration,
    hosts: HostTable,
    tls_ticketer: Option<String>,
    spawn_task_unconstrained: bool,
    alert_unrecognized_name: bool,
}

impl View for OpensslProxyServerConfig {
    type V = OpensslProxyView;

    closed spec fn view(&self) -> OpensslProxyView {
        OpensslProxyView {
            common: self.common@,
            client_hello_recv_timeout: self.client_hello_recv_timeout,
            client_hello_max_size: self.client_hello_max_size,
            accept_timeout: self.accept_timeout,
            hosts: self.hosts@,
            tls_ticketer: opt_text(self.tls_ticketer),
            spawn_task_unconstrained: self.spawn_task_unconstrained,
            alert_unrecognized_name: self.alert_unrecognized_name,
        }
    }
}

impl OpensslProxyServerConfig {
    /// The configuration of a server of which nothing is configured.
    pub fn new(position: Option<YamlDocPosition>) -> (r: Self)
        ensures
            r@ == OpensslProxyView::init(opt_position(position)),
    {
        OpensslProxyServerConfig {
            common: CommonServerConfig::new(position),
            client_hello_recv_timeout: ConfigDuration::from_secs(
                DEFAULT_CLIENT_HELLO_RECV_TIMEOUT_SECS,
            ),
            client_hello_max_size: DEFAULT_CLIENT_HELLO_MAX_SIZE,
            accept_timeout: ConfigDuration::from_secs(DEFAULT_ACCEPT_TIMEOUT_SECS),
            hosts: HostTable::new(),
            tls_ticketer: None,
            spawn_task_unconstrained: false,
            alert_unrecognized_name: false,
        }
    }

    /// The kind of value that the key `k` asks for, if it is a key of this
    /// server.
    pub fn value_kind(k: &str) -> (r: Option<ValueKind>)
        ensures
            r == (match openssl_key_of(normal_key(k.spec_bytes())) {
                Some(m) => Some(m.key.spec_kind()),
                None => None,
            }),
    {
        match openssl_key(k) {
            Some(m) => Some(m.key.kind()),
            None => None,
        }
    }

    /// Reads a configuration: sets the entries in order and checks the
    /// result. The first entry that is not accepted ends the reading.
    pub fn parse(entries: &Vec<(String, ConfigValue)>, position: Option<YamlDocPosition>) -> (r:
        Result<Self, ConfigError>)
        ensures
            match OpensslProxyView::init(opt_position(position)).set_all(entries_view(entries@)) {
                Err(e) => r == Err::<Self, ConfigError>(e),
                Ok(c) => match c.check().1 {
                    Err(e) => r == Err::<Self, ConfigError>(e),
                    Ok(_) => r is Ok && r->Ok_0@ == c.check().0,
                },
            },
    {
        let mut server = OpensslProxyServerConfig::new(position);
        let ghost init = server@;
        let ghost all = entries_view(entries@);
        let mut i: usize = 0;
        assert(all.take(0) =~= Seq::<(Seq<u8>, ConfigValueView)>::empty());
        while i < entries.len()
            invariant
                i <= entries@.len(),
                all == entries_view(entries@),
                init == OpensslProxyView::init(opt_position(position)),
                init.set_all(all.take(i as int)) == Ok::<OpensslProxyView, ConfigError>(server@),
            decreases entries@.len() - i,
        {
            let entry = &entries[i];
            let ghost before = server@;
            let key = entry.0.as_str();
            proof {
                assert(all.take(i + 1).drop_last() =~= all.take(i as int));
                assert(all.take(i + 1).last() == all[i as int]);
                assert(all[i as int] == (key.spec_bytes(), entry.1@));
            }
            match server.set(key, &entry.1) {
                Ok(_) => {},
                Err(e) => {
                    proof {
                        assert(before.set_entry(normal_key(key.spec_bytes()), entry.1@) is Err);
                        assert(init.set_all(all.take(i + 1)) == Err::<
                            OpensslProxyView,
                            ConfigError,
                        >(e));
                        lemma_set_all_stops(init, all, i + 1);
                    }
                    return Err(e);
                },
            }
            i = i + 1;
        }
        assert(all.take(i as int) =~= all);
        match server.check() {
            Ok(()) => Ok(server),
            Err(e) => Err(e),
        }
    }

    /// Checks the configuration and completes it.
    pub fn check(&mut self) -> (r: Result<(), ConfigError>)
        ensures
            final(self)@ == old(self)@.check().0,
            r == old(self)@.check().1,
    {
        if self.common.name.as_str().is_empty() {
            return Err(ConfigError::NameNotSet);
        }
        if self.hosts.is_empty() {
            return Err(ConfigError::NoHostConfigSet);
        }
        self.common.check();
        Ok(())
    }

    /// Sets the key `k` to `v`. Keys are matched in their normal form. On
    /// success the setting that the key stands for is returned, and
    /// whether the key is a deprecated spelling; a key that is not known
    /// or a value of the wrong kind leaves the configuration as it was.
    pub fn set(&mut self, k: &str, v: &ConfigValue) -> (r: Result<KeyMatch, ConfigError>)
        ensures
            match old(self)@.set_entry(normal_key(k.spec_bytes()), v@) {
                Ok((c, m)) => r == Ok::<KeyMatch, ConfigError>(m) && final(self)@ == c,
                Err(e) => r == Err::<KeyMatch, ConfigError>(e) && final(self)@ == old(self)@,
            },
    {
        match openssl_key(k) {
            None => Err(ConfigError::InvalidKey),
            Some(m) => {
                if !v.fits(m.key.kind()) {
                    return Err(ConfigError::InvalidValue(m.key.kind()));
                }
                match (m.key, v) {
                    (ServerConfigKey::ClientHelloRecvTimeout, ConfigValue::Duration(d)) => {
                        self.client_hello_recv_timeout = *d;
                    },
                    (ServerConfigKey::ClientHelloMaxSize, ConfigValue::U32(n)) => {
                        self.client_hello_max_size = *n;
                    },
                    (ServerConfigKey::AcceptTimeout, ConfigValue::Duration(d)) => {
                        self.accept_timeout = *d;
                    },
                    (ServerConfigKey::Hosts, ConfigValue::Hosts(h)) => {
                        self.hosts = h.duplicate();
                    },
                    (ServerConfigKey::TlsTicketer, ConfigValue::Raw(s)) => {
                        self.tls_ticketer = Some(s.clone());
                    },
                    (ServerConfigKey::SpawnTaskUnconstrained, ConfigValue::Bool(b)) => {
                        self.spawn_task_unconstrained = *b;
                    },
                    (ServerConfigKey::AlertUnrecognizedName, ConfigValue::Bool(b)) => {
                        self.alert_unrecognized_name = *b;
                    },
                    _ => {
                        self.common.set(m.key, v);
                    },
                }
                Ok(m)
            },
        }
    }

    /// Whether two configurations are the same in every respect.
    pub fn same(&self, other: &OpensslProxyServerConfig) -> (r: bool)
        ensures
            r == (self@ == other@),
    {
        self.common.same(&other.common) && self.client_hello_recv_timeout
            == other.client_hello_recv_timeout && self.client_hello_max_size
            == other.client_hello_max_size && self.accept_timeout == other.accept_timeout
            && self.hosts.same(&other.hosts) && opt_text_eq(
            &self.tls_ticketer,
            &other.tls_ticketer,
        ) && self.spawn_task_unconstrained == other.spawn_task_unconstrained
            && self.alert_unrecognized_name == other.alert_unrecognized_name
    }

    /// The name of the server.
    pub fn name(&self) -> (r: &String)
        ensures
            r@ == self@.common.name,
    {
        &self.common.name
    }

    /// Where the configuration was found.
    pub fn position(&self) -> (r: &Option<YamlDocPosition>)
        ensures
            opt_position(*r) == self@.common.position,
    {
        &self.common.position
    }

    /// The type of the server.
    pub fn server_type(&self) -> (r: &'static str)
        ensures
            r@ == SERVER_CONFIG_TYPE@,
    {
        SERVER_CONFIG_TYPE
    }

    /// What a change to the configuration `new` asks of the running
    /// server; `None` stands for the configuration of a server of another
    /// type.
    pub fn diff_action(&self, new: Option<&OpensslProxyServerConfig>) -> (r:
        ServerConfigDiffAction)
        ensures
            r == (match new {
                None => diff_action_of(false, false, false),
                Some(n) => diff_action_of(
                    true,
                    self@ == n@,
                    self@.common.listen == n@.common.listen,
                ),
            }),
    {
        let new = match new {
            Some(n) => n,
            None => {
                return ServerConfigDiffAction::SpawnNew;
            },
        };
        if self.same(new) {
            return ServerConfigDiffAction::NoAction;
        }
        if !self.common.listen.same(&new.common.listen) {
            return ServerConfigDiffAction::ReloadAndRespawn;
        }
        ServerConfigDiffAction::ReloadNoRespawn
    }

    /// The settings that the server shares with every stream server.
    pub fn common(&self) -> (r: &CommonServerConfig)
        ensures
            r@ == self@.common,
    {
        &self.common
    }

    /// How long a client has to send its hello.
    pub fn client_hello_recv_timeout(&self) -> (r: ConfigDuration)
        ensures
            r == self@.client_hello_recv_timeout,
    {
        self.client_hello_recv_timeout
    }

    /// The largest client hello accepted.
    pub fn client_hello_max_size(&self) -> (r: u32)
        ensures
            r == self@.client_hello_max_size,
    {
        self.client_hello_max_size
    }

    /// How long a handshake may take.
    pub fn accept_timeout(&self) -> (r: ConfigDuration)
        ensures
            r == self@.accept_timeout,
    {
        self.accept_timeout
    }

    /// The hosts of the server, as configured.
    pub fn hosts(&self) -> (r: &HostTable)
        ensures
            r@ == self@.hosts,
    {
        &self.hosts
    }

    /// The source of TLS session ticket keys, as configured.
    pub fn tls_ticketer(&self) -> (r: &Option<String>)
        ensures
            opt_text(*r) == self@.tls_ticketer,
    {
        &self.tls_ticketer
    }

    /// Whether tasks of the server run outside the budget of the runtime.
    pub fn spawn_task_unconstrained(&self) -> (r: bool)
        ensures
            r == self@.spawn_task_unconstrained,
    {
        self.spawn_task_unconstrained
    }

    /// Whether a client that names a host which the server does not know
    /// is sent an alert.
    pub fn alert_unrecognized_name(&self) -> (r: bool)
        ensures
            r == self@.alert_unrecognized_name,
    {
        self.alert_unrecognized_name
    }
}

/// Once an entry is not accepted, the entries behind it play no part.
pub proof fn lemma_set_all_stops(
    init: OpensslProxyView,
    all: Seq<(Seq<u8>, ConfigValueView)>,
    n: int,
)
    requires
        0 <= n <= all.len(),
        init.set_all(all.take(n)) is Err,
    ensures
        init.set_all(all) == init.set_all(all.take(n)),
    decreases all.len() - n,
{
    if n < all.len() {
        assert(all.take(n + 1).drop_last() =~= all.take(n));
        lemma_set_all_stops(init, all, n + 1);
    } else {
        assert(all.take(n) =~= all);
    }
}

/// A deprecated spelling stands for the speed limit of a socket, and sets
/// what the canonical key sets.
pub proof fn lemma_deprecated_keys_map_to_canonical(
    c: OpensslProxyView,
    n: Seq<u8>,
    v: ConfigValueView,
)
    requires
        openssl_key_of(n) is Some,
        openssl_key_of(n)->Some_0.deprecated,
    ensures
        openssl_key_of(n)->Some_0.key == ServerConfigKey::TcpSockSpeedLimit,
        v.fits(ValueKind::Raw) ==> c.set_entry(n, v) is Ok && c.set_entry(n, v)->Ok_0.0 == c.set(
            ServerConfigKey::TcpSockSpeedLimit,
            v,
        ),
        !v.fits(ValueKind::Raw) ==> c.set_entry(n, v) == Err::<
            (OpensslProxyView, KeyMatch),
            ConfigError,
        >(ConfigError::InvalidValue(ValueKind::Raw)),
{
    reveal(openssl_key_of);
}

} // verus!
