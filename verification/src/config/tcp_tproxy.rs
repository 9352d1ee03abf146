//! The configuration of a transparent TCP proxy server.

use vstd::prelude::*;
use vstd::string::StringSliceAdditionalSpecFns;

use crate::config::common::{
    opt_position, CommonServerConfig, CommonView, KeyMatch, ServerConfigKey,
};
use crate::config::key::{key_is, normal_key, normalize};
use crate::config::value::{
    diff_action_of, opt_text, text_eq, ConfigDuration, ConfigError, ConfigValue,
    ConfigValueView, ServerConfigDiffAction, ValueKind, YamlDocPosition,
};
use crate::copy_config::StreamCopyConfig;

verus! {


/// The type of the server, as configurations name it.
pub const SERVER_CONFIG_TYPE: &'static str = "TcpTProxy";

/// The setting that the normal form `n` of a key stands for. The speed limit
/// of a socket has three deprecated spellings.
#[verifier::opaque]
pub open spec fn tproxy_key_of(n: Seq<u8>) -> Option<KeyMatch> {
    if n == "type".spec_bytes() {
        Some(KeyMatch { key: ServerConfigKey::Type, deprecated: false })
    } else if n == "name".spec_bytes() {
        Some(KeyMatch { key: ServerConfigKey::Name, deprecated: false })
    } else if n == "escaper".spec_bytes() {
        Some(KeyMatch { key: ServerConfigKey::Escaper, deprecated: false })
    } else if n == "auditor".spec_bytes() {
        Some(KeyMatch { key: ServerConfigKey::Auditor, deprecated: false })
    } else if n == "shared_logger".spec_bytes() {
        Some(KeyMatch { key: ServerConfigKey::SharedLogger, deprecated: false })
    } else if n == "extra_metrics_tags".spec_bytes() {
        Some(KeyMatch { key: ServerConfigKey::ExtraMetricsTags, deprecated: false })
    } else if n == "listen".spec_bytes() {
        Some(KeyMatch { key: ServerConfigKey::Listen, deprecated: false })
    } else if n == "listen_in_worker".spec_bytes() {
        Some(KeyMatch { key: ServerConfigKey::ListenInWorker, deprecated: false })
    } else if n == "ingress_network_filter".spec_bytes() || n == "ingress_net_filter".spec_bytes() {
        Some(KeyMatch { key: ServerConfigKey::IngressNetFilter, deprecated: false })
    } else if n == "tcp_sock_speed_limit".spec_bytes() {
        Some(KeyMatch { key: ServerConfigKey::TcpSockSpeedLimit, deprecated: false })
    } else if n == "tcp_conn_speed_limit".spec_bytes() || n == "tcp_conn_limit".spec_bytes() || n
        == "conn_limit".spec_bytes() {
        Some(KeyMatch { key: ServerConfigKey::TcpSockSpeedLimit, deprecated: true })
    } else if n == "tcp_copy_buffer_size".spec_bytes() {
        Some(KeyMatch { key: ServerConfigKey::TcpCopyBufferSize, deprecated: false })
    } else if n == "tcp_copy_yield_size".spec_bytes() {
        Some(KeyMatch { key: ServerConfigKey::TcpCopyYieldSize, deprecated: false })
    } else if n == "tcp_misc_opts".spec_bytes() {
        Some(KeyMatch { key: ServerConfigKey::TcpMiscOpts, deprecated: false })
    } else if n == "task_idle_check_duration".spec_bytes() {
        Some(KeyMatch { key: ServerConfigKey::TaskIdleCheckDuration, deprecated: false })
    } else if n == "task_idle_max_count".spec_bytes() {
        Some(KeyMatch { key: ServerConfigKey::TaskIdleMaxCount, deprecated: false })
    } else if n == "flush_task_log_on_created".spec_bytes() {
        Some(KeyMatch { key: ServerConfigKey::FlushTaskLogOnCreated, deprecated: false })
    } else if n == "flush_task_log_on_connected".spec_bytes() {
        Some(KeyMatch { key: ServerConfigKey::FlushTaskLogOnConnected, deprecated: false })
    } else if n == "task_log_flush_interval".spec_bytes() {
        Some(KeyMatch { key: ServerConfigKey::TaskLogFlushInterval, deprecated: false })
    } else {
        None
    }
}

/// The setting that the key `k` stands for, if it is a key of this server.
pub fn tproxy_key(k: &str) -> (r: Option<KeyMatch>)
    ensures
        r == tproxy_key_of(normal_key(k.spec_bytes())),
{
    reveal(tproxy_key_of);
    let n = normalize(k);
    if key_is(&n, "type") {
        Some(KeyMatch { key: ServerConfigKey::Type, deprecated: false })
    } else if key_is(&n, "name") {
        Some(KeyMatch { key: ServerConfigKey::Name, deprecated: false })
    } else if key_is(&n, "escaper") {
        Some(KeyMatch { key: ServerConfigKey::Escaper, deprecated: false })
    } else if key_is(&n, "auditor") {
        Some(KeyMatch { key: ServerConfigKey::Auditor, deprecated: false })
    } else if key_is(&n, "shared_logger") {
        Some(KeyMatch { key: ServerConfigKey::SharedLogger, deprecated: false })
    } else if key_is(&n, "extra_metrics_tags") {
        Some(KeyMatch { key: ServerConfigKey::ExtraMetricsTags, deprecated: false })
    } else if key_is(&n, "listen") {
        Some(KeyMatch { key: ServerConfigKey::Listen, deprecated: false })
    } else if key_is(&n, "listen_in_worker") {
        Some(KeyMatch { key: ServerConfigKey::ListenInWorker, deprecated: false })
    } else if key_is(&n, "ingress_network_filter") || key_is(&n, "ingress_net_filter") {
        Some(KeyMatch { key: ServerConfigKey::IngressNetFilter, deprecated: false })
    } else if key_is(&n, "tcp_sock_speed_limit") {
        Some(KeyMatch { key: ServerConfigKey::TcpSockSpeedLimit, deprecated: false })
    } else if key_is(&n, "tcp_conn_speed_limit") || key_is(&n, "tcp_conn_limit") || key_is(
        &n,
        "conn_limit",
    ) {
        Some(KeyMatch { key: ServerConfigKey::TcpSockSpeedLimit, deprecated: true })
    } else if key_is(&n, "tcp_copy_buffer_size") {
        Some(KeyMatch { key: ServerConfigKey::TcpCopyBufferSize, deprecated: false })
    } else if key_is(&n, "tcp_copy_yield_size") {
        Some(KeyMatch { key: ServerConfigKey::TcpCopyYieldSize, deprecated: false })
    } else if key_is(&n, "tcp_misc_opts") {
        Some(KeyMatch { key: ServerConfigKey::TcpMiscOpts, deprecated: false })
    } else if key_is(&n, "task_idle_check_duration") {
        Some(KeyMatch { key: ServerConfigKey::TaskIdleCheckDuration, deprecated: false })
    } else if key_is(&n, "task_idle_max_count") {
        Some(KeyMatch { key: ServerConfigKey::TaskIdleMaxCount, deprecated: false })
    } else if key_is(&n, "flush_task_log_on_created") {
        Some(KeyMatch { key: ServerConfigKey::FlushTaskLogOnCreated, deprecated: false })
    } else if key_is(&n, "flush_task_log_on_connected") {
        Some(KeyMatch { key: ServerConfigKey::FlushTaskLogOnConnected, deprecated: false })
    } else if key_is(&n, "task_log_flush_interval") {
        Some(KeyMatch { key: ServerConfigKey::TaskLogFlushInterval, deprecated: false })
    } else {
        None
    }
}

/// The configuration as contracts see it.
pub struct TcpTProxyView {
    pub common: CommonView,
    pub escaper: Seq<char>,
    pub auditor: Seq<char>,
    /// Whether the listen socket is to accept connections that are meant
    /// for other addresses.
    pub transparent: bool,
}

impl TcpTProxyView {
    /// The configuration of a server of which nothing is configured.
    pub open spec fn init(position: Option<(Seq<char>, usize)>) -> TcpTProxyView {
        TcpTProxyView {
            common: CommonView::init(position),
            escaper: Seq::empty(),
            auditor: Seq::empty(),
            transparent: false,
        }
    }

    /// The configuration after `key` was set to `v`, for a value that fits
    /// the key.
    pub open spec fn set(self, key: ServerConfigKey, v: ConfigValueView) -> TcpTProxyView {
        match (key, v) {
            (ServerConfigKey::Escaper, ConfigValueView::Name(s)) => TcpTProxyView {
                escaper: s,
                ..self
            },
            (ServerConfigKey::Auditor, ConfigValueView::Name(s)) => TcpTProxyView {
                auditor: s,
                ..self
            },
            _ => TcpTProxyView { common: self.common.set(key, v), ..self },
        }
    }

    /// What setting the key with normal form `n` to `v` leads to: the
    /// configuration after it and the setting that the key stands for, or
    /// why the entry is not accepted.
    pub open spec fn set_entry(self, n: Seq<u8>, v: ConfigValueView) -> Result<
        (TcpTProxyView, KeyMatch),
        ConfigError,
    > {
        match tproxy_key_of(n) {
            None => Err(ConfigError::InvalidKey),
            Some(m) => if v.fits(m.key.spec_kind()) {
                Ok((self.set(m.key, v), m))
            } else {
                Err(ConfigError::InvalidValue(m.key.spec_kind()))
            },
        }
    }

    /// What checking the configuration leads to. A server needs a name, an
    /// escaper and a port to listen on; the idle check interval is cut to
    /// its maximum and the listen socket made transparent before the listen
    /// address is looked at.
    pub open spec fn check(self) -> (TcpTProxyView, Result<(), ConfigError>) {
        if self.common.name.len() == 0 {
            (self, Err(ConfigError::NameNotSet))
        } else if self.escaper.len() == 0 {
            (self, Err(ConfigError::EscaperNotSet))
        } else {
            let c = TcpTProxyView { common: self.common.checked(), transparent: true, ..self };
            if !c.common.listen.valid() {
                (c, Err(ConfigError::NoListenPortSet))
            } else {
                (c, Ok(()))
            }
        }
    }

    /// What setting the entries one after another leads to, up to the
    /// first that is not accepted.
    pub open spec fn set_all(self, entries: Seq<(Seq<u8>, ConfigValueView)>) -> Result<
        TcpTProxyView,
        ConfigError,
    >
        decreases entries.len(),
    {
        if entries.len() == 0 {
            Ok(self)
        } else {
            match self.set_all(entries.drop_last()) {
                Err(e) => Err(e),
                Ok(c) => match c.set_entry(normal_key(entries.last().0), entries.last().1) {
                    Err(e) => Err(e),
                    Ok((c2, _)) => Ok(c2),
                },
            }
        }
    }
}

/// The entries of a configuration as contracts see them: the bytes of each
/// key, and its value.
pub open spec fn entries_view(entries: Seq<(String, ConfigValue)>) -> Seq<
    (Seq<u8>, ConfigValueView),
> {
    Seq::new(entries.len(), |i: int| (vstd::utf8::encode_utf8(entries[i].0@), entries[i].1@))
}

/// The configuration of a transparent TCP proxy server.
#[derive(Debug)]
pub struct TcpTProxyServerConfig {
    common: CommonServerConfig,
    escaper: String,
    auditor: String,
    transparent: bool,
}

impl View for TcpTProxyServerConfig {
    type V = TcpTProxyView;

    closed spec fn view(&self) -> TcpTProxyView {
        TcpTProxyView {
            common: self.common@,
            escaper: self.escaper@,
            auditor: self.auditor@,
            transparent: self.transparent,
        }
    }
}

impl TcpTProxyServerConfig {
    /// The configuration of a server of which nothing is configured.
    pub fn new(position: Option<YamlDocPosition>) -> (r: Self)
        ensures
            r@ == TcpTProxyView::init(opt_position(position)),
    {
        TcpTProxyServerConfig {
            common: CommonServerConfig::new(position),
            escaper: String::new(),
            auditor: String::new(),
            transparent: false,
        }
    }

    /// The kind of value that the key `k` asks for, if it is a key of this
    /// server.
    pub fn value_kind(k: &str) -> (r: Option<ValueKind>)
        ensures
            r == (match tproxy_key_of(normal_key(k.spec_bytes())) {
                Some(m) => Some(m.key.spec_kind()),
                None => None,
            }),
    {
        match tproxy_key(k) {
            Some(m) => Some(m.key.kind()),
            None => None,
        }
    }

    /// Reads a configuration: sets the entries in order and checks the
    /// result. The first entry that is not accepted ends the reading.
    pub fn parse(entries: &Vec<(String, ConfigValue)>, position: Option<YamlDocPosition>) -> (r:
        Result<Self, ConfigError>)
        ensures
            match TcpTProxyView::init(opt_position(position)).set_all(entries_view(entries@)) {
                Err(e) => r == Err::<Self, ConfigError>(e),
                Ok(c) => match c.check().1 {
                    Err(e) => r == Err::<Self, ConfigError>(e),
                    Ok(_) => r is Ok && r->Ok_0@ == c.check().0,
                },
            },
    {
        let mut server = TcpTProxyServerConfig::new(position);
        let ghost init = server@;
        let ghost all = entries_view(entries@);
        let mut i: usize = 0;
        assert(all.take(0) =~= Seq::<(Seq<u8>, ConfigValueView)>::empty());
        while i < entries.len()
            invariant
                i <= entries@.len(),
                all == entries_view(entries@),
                init == TcpTProxyView::init(opt_position(position)),
                init.set_all(all.take(i as int)) == Ok::<TcpTProxyView, ConfigError>(server@),
            decreases entries@.len() - i,
        {
            let entry = &entries[i];
            let ghost before = server@;
            let key = entry.0.as_str();
            proof {
                assert(all.take(i + 1).drop_last() =~= all.take(i as int));
                assert(all.take(i + 1).last() == all[i as int]);
                assert(all[i as int] == (key.spec_bytes(), entry.1@));
            }
            match server.set(key, &entry.1) {
                Ok(_) => {},
                Err(e) => {
                    proof {
                        assert(before.set_entry(normal_key(key.spec_bytes()), entry.1@) is Err);
                        assert(init.set_all(all.take(i + 1)) == Err::<TcpTProxyView, ConfigError>(
                            e,
                        ));
                        lemma_set_all_stops(init, all, i + 1);
                    }
                    return Err(e);
                },
            }
            i = i + 1;
        }
        assert(all.take(i as int) =~= all);
        match server.check() {
            Ok(()) => Ok(server),
            Err(e) => Err(e),
        }
    }

    /// Sets the key `k` to `v`. Keys are matched in their normal form. On
    /// success the setting that the key stands for is returned, and
    /// whether the key is a deprecated spelling; a key that is not known
    /// or a value of the wrong kind leaves the configuration as it was.
    pub fn set(&mut self, k: &str, v: &ConfigValue) -> (r: Result<KeyMatch, ConfigError>)
        ensures
            match old(self)@.set_entry(normal_key(k.spec_bytes()), v@) {
                Ok((c, m)) => r == Ok::<KeyMatch, ConfigError>(m) && final(self)@ == c,
                Err(e) => r == Err::<KeyMatch, ConfigError>(e) && final(self)@ == old(self)@,
            },
    {
        match tproxy_key(k) {
            None => Err(ConfigError::InvalidKey),
            Some(m) => {
                if !v.fits(m.key.kind()) {
                    return Err(ConfigError::InvalidValue(m.key.kind()));
                }
                match (m.key, v) {
                    (ServerConfigKey::Escaper, ConfigValue::Name(s)) => {
                        self.escaper = s.clone();
                    },
                    (ServerConfigKey::Auditor, ConfigValue::Name(s)) => {
                        self.auditor = s.clone();
                    },
                    _ => {
                        self.common.set(m.key, v);
                    },
                }
                Ok(m)
            },
        }
    }

    /// Checks the configuration and completes it.
    pub fn check(&mut self) -> (r: Result<(), ConfigError>)
        ensures
            final(self)@ == old(self)@.check().0,
            r == old(self)@.check().1,
    {
        if self.common.name.as_str().is_empty() {
            return Err(ConfigError::NameNotSet);
        }
        if self.escaper.as_str().is_empty() {
            return Err(ConfigError::EscaperNotSet);
        }
        self.common.check();
        self.transparent = true;
        self.common.listen.check()
    }

    /// Whether two configurations are the same in every respect.
    pub fn same(&self, other: &TcpTProxyServerConfig) -> (r: bool)
        ensures
            r == (self@ == other@),
    {
        self.common.same(&other.common) && text_eq(&self.escaper, &other.escaper) && text_eq(
            &self.auditor,
            &other.auditor,
        ) && self.transparent == other.transparent
    }

    /// The name of the server.
    pub fn name(&self) -> (r: &String)
        ensures
            r@ == self@.common.name,
    {
        &self.common.name
    }

    /// Where the configuration was found.
    pub fn position(&self) -> (r: &Option<YamlDocPosition>)
        ensures
            opt_position(*r) == self@.common.position,
    {
        &self.common.position
    }

    /// The type of the server.
    pub fn server_type(&self) -> (r: &'static str)
        ensures
            r@ == SERVER_CONFIG_TYPE@,
    {
        SERVER_CONFIG_TYPE
    }

    /// The name of the escaper that the server hands its connections to.
    pub fn escaper(&self) -> (r: &String)
        ensures
            r@ == self@.escaper,
    {
        &self.escaper
    }

    /// The name of the user group of the server: it has none.
    pub fn user_group(&self) -> (r: String)
        ensures
            r@.len() == 0,
    {
        String::new()
    }

    /// The name of the auditor of the server.
    pub fn auditor(&self) -> (r: &String)
        ensures
            r@ == self@.auditor,
    {
        &self.auditor
    }

    /// What a change to the configuration `new` asks of the running
    /// server; `None` stands for the configuration of a server of another
    /// type.
    pub fn diff_action(&self, new: Option<&TcpTProxyServerConfig>) -> (r: ServerConfigDiffAction)
        ensures
            r == (match new {
                None => diff_action_of(false, false, false),
                Some(n) => diff_action_of(
                    true,
                    self@ == n@,
                    self@.common.listen == n@.common.listen,
                ),
            }),
    {
        let new = match new {
            Some(n) => n,
            None => {
                return ServerConfigDiffAction::SpawnNew;
            },
        };
        if self.same(new) {
            return ServerConfigDiffAction::NoAction;
        }
        if !self.common.listen.same(&new.common.listen) {
            return ServerConfigDiffAction::ReloadAndRespawn;
        }
        ServerConfigDiffAction::ReloadNoRespawn
    }

    /// The settings that the server shares with every stream server.
    pub fn common(&self) -> (r: &CommonServerConfig)
        ensures
            r@ == self@.common,
    {
        &self.common
    }

    /// The name of the logger that the server shares, if it shares one.
    pub fn shared_logger(&self) -> (r: &Option<String>)
        ensures
            opt_text(*r) == self@.common.shared_logger,
    {
        &self.common.shared_logger
    }

    /// How often the log of a task is flushed, if it is.
    pub fn task_log_flush_interval(&self) -> (r: Option<ConfigDuration>)
        ensures
            r == self@.common.task_log_flush_interval,
    {
        self.common.task_log_flush_interval
    }

    /// The sizes that the server copies with.
    pub fn limited_copy_config(&self) -> (r: StreamCopyConfig)
        ensures
            r.spec_buffer_size() == self@.common.tcp_copy_buffer_size,
            r.spec_yield_size() == self@.common.tcp_copy_yield_size,
    {
        self.common.tcp_copy
    }

    /// The idle count at which a task of the server quits.
    pub fn task_max_idle_count(&self) -> (r: usize)
        ensures
            r == self@.common.task_idle_max_count,
    {
        self.common.task_idle_max_count
    }

    /// The interval between two idle checks of a task of the server.
    pub fn task_idle_check_duration(&self) -> (r: ConfigDuration)
        ensures
            r == self@.common.task_idle_check_duration,
    {
        self.common.task_idle_check_duration
    }

    /// Whether the listen socket is to accept connections that are meant
    /// for other addresses.
    pub fn transparent(&self) -> (r: bool)
        ensures
            r == self@.transparent,
    {
        self.transparent
    }
}

/// Once an entry is not accepted, the entries behind it play no part.
pub proof fn lemma_set_all_stops(
    init: TcpTProxyView,
    all: Seq<(Seq<u8>, ConfigValueView)>,
    n: int,
)
    requires
        0 <= n <= all.len(),
        init.set_all(all.take(n)) is Err,
    ensures
        init.set_all(all) == init.set_all(all.take(n)),
    decreases all.len() - n,
{
    if n < all.len() {
        assert(all.take(n + 1).drop_last() =~= all.take(n));
        lemma_set_all_stops(init, all, n + 1);
    } else {
        assert(all.take(n) =~= all);
    }
}

/// A deprecated spelling stands for the speed limit of a socket, and sets
/// what the canonical key sets.
pub proof fn lemma_deprecated_keys_map_to_canonical(
    c: TcpTProxyView,
    n: Seq<u8>,
    v: ConfigValueView,
)
    requires
        tproxy_key_of(n) is Some,
        tproxy_key_of(n)->Some_0.deprecated,
    ensures
        tproxy_key_of(n)->Some_0.key == ServerConfigKey::TcpSockSpeedLimit,
        v.fits(ValueKind::Raw) ==> c.set_entry(n, v) is Ok && c.set_entry(n, v)->Ok_0.0 == c.set(
            ServerConfigKey::TcpSockSpeedLimit,
            v,
        ),
        !v.fits(ValueKind::Raw) ==> c.set_entry(n, v) == Err::<
            (TcpTProxyView, KeyMatch),
            ConfigError,
        >(ConfigError::InvalidValue(ValueKind::Raw)),
{
    reveal(tproxy_key_of);
}

} // verus!
