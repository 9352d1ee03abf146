//! The settings that every stream server has.

use vstd::prelude::*;

use crate::config::value::{
    opt_text, opt_text_eq, text_eq, ConfigDuration, ConfigValue, ConfigValueView, TcpListenConfig,
    TcpListenView, ValueKind, YamlDocPosition,
};
use crate::copy_config::{
    raised, StreamCopyConfig, DEFAULT_COPY_BUFFER_SIZE, DEFAULT_COPY_YIELD_SIZE,
    MINIMAL_COPY_BUFFER_SIZE, MINIMAL_COPY_YIELD_SIZE,
};
use crate::idle::{
    IDLE_CHECK_DEFAULT_MAX_COUNT, IDLE_CHECK_DEFAULT_SECS, IDLE_CHECK_MAXIMUM_SECS,
};

verus! {

/// The settings of a server, each under its canonical key.
#[derive(Clone, Copy, Debug, PartialEq, Eq, Structural)]
pub enum ServerConfigKey {
    Type,
    Name,
    Escaper,
    Auditor,
    SharedLogger,
    ExtraMetricsTags,
    Listen,
    ListenInWorker,
    IngressNetFilter,
    ClientHelloRecvTimeout,
    ClientHelloMaxSize,
    AcceptTimeout,
    Hosts,
    TcpSockSpeedLimit,
    TcpCopyBufferSize,
    TcpCopyYieldSize,
    TcpMiscOpts,
    TaskIdleCheckDuration,
    TaskIdleMaxCount,
    FlushTaskLogOnCreated,
    FlushTaskLogOnConnected,
    TaskLogFlushInterval,
    TlsTicketer,
    SpawnTaskUnconstrained,
    AlertUnrecognizedName,
}

impl ServerConfigKey {
    /// The kind of value that the setting takes.
    pub open spec fn spec_kind(self) -> ValueKind {
        match self {
            ServerConfigKey::Type => ValueKind::Any,
            ServerConfigKey::Name => ValueKind::Name,
            ServerConfigKey::Escaper => ValueKind::Name,
            ServerConfigKey::Auditor => ValueKind::Name,
            ServerConfigKey::SharedLogger => ValueKind::Ascii,
            ServerConfigKey::ExtraMetricsTags => ValueKind::Raw,
            ServerConfigKey::Listen => ValueKind::Listen,
            ServerConfigKey::ListenInWorker => ValueKind::Bool,
            ServerConfigKey::IngressNetFilter => ValueKind::Raw,
            ServerConfigKey::ClientHelloRecvTimeout => ValueKind::Duration,
            ServerConfigKey::ClientHelloMaxSize => ValueKind::U32,
            ServerConfigKey::AcceptTimeout => ValueKind::Duration,
            ServerConfigKey::Hosts => ValueKind::Hosts,
            ServerConfigKey::TcpSockSpeedLimit => ValueKind::Raw,
            ServerConfigKey::TcpCopyBufferSize => ValueKind::Usize,
            ServerConfigKey::TcpCopyYieldSize => ValueKind::Usize,
            ServerConfigKey::TcpMiscOpts => ValueKind::Raw,
            ServerConfigKey::TaskIdleCheckDuration => ValueKind::Duration,
            ServerConfigKey::TaskIdleMaxCount => ValueKind::Usize,
            ServerConfigKey::FlushTaskLogOnCreated => ValueKind::Bool,
            ServerConfigKey::FlushTaskLogOnConnected => ValueKind::Bool,
            ServerConfigKey::TaskLogFlushInterval => ValueKind::Duration,
            ServerConfigKey::TlsTicketer => ValueKind::Raw,
            ServerConfigKey::SpawnTaskUnconstrained => ValueKind::Bool,
            ServerConfigKey::AlertUnrecognizedName => ValueKind::Bool,
        }
    }

    /// The kind of value that the setting takes.
    #[verifier::when_used_as_spec(spec_kind)]
    pub fn kind(self) -> (r: ValueKind)
        ensures
            r == self.spec_kind(),
    {
        match self {
            ServerConfigKey::Type => ValueKind::Any,
            ServerConfigKey::Name | ServerConfigKey::Escaper | ServerConfigKey::Auditor => {
                ValueKind::Name
            },
            ServerConfigKey::SharedLogger => ValueKind::Ascii,
            ServerConfigKey::Listen => ValueKind::Listen,
            ServerConfigKey::Hosts => ValueKind::Hosts,
            ServerConfigKey::ExtraMetricsTags
            | ServerConfigKey::IngressNetFilter
            | ServerConfigKey::TcpSockSpeedLimit
            | ServerConfigKey::TcpMiscOpts
            | ServerConfigKey::TlsTicketer => ValueKind::Raw,
            ServerConfigKey::ListenInWorker
            | ServerConfigKey::FlushTaskLogOnCreated
            | ServerConfigKey::FlushTaskLogOnConnected
            | ServerConfigKey::SpawnTaskUnconstrained
            | ServerConfigKey::AlertUnrecognizedName => ValueKind::Bool,
            ServerConfigKey::ClientHelloRecvTimeout
            | ServerConfigKey::AcceptTimeout
            | ServerConfigKey::TaskIdleCheckDuration
            | ServerConfigKey::TaskLogFlushInterval => ValueKind::Duration,
            ServerConfigKey::ClientHelloMaxSize => ValueKind::U32,
            ServerConfigKey::TcpCopyBufferSize
            | ServerConfigKey::TcpCopyYieldSize
            | ServerConfigKey::TaskIdleMaxCount => ValueKind::Usize,
        }
    }
}

/// A key as it was found: the setting it stands for, and whether it is a
/// deprecated spelling that deserves a warning.
#[derive(Clone, Copy, Debug, PartialEq, Eq, Structural)]
pub struct KeyMatch {
    pub key: ServerConfigKey,
    pub deprecated: bool,
}

/// The common settings as contracts see them.
pub struct CommonView {
    pub name: Seq<char>,
    pub position: Option<(Seq<char>, usize)>,
    pub shared_logger: Option<Seq<char>>,
    pub listen: TcpListenView,
    pub listen_in_worker: bool,
    pub ingress_net_filter: Option<Seq<char>>,
    pub extra_metrics_tags: Option<Seq<char>>,
    pub tcp_sock_speed_limit: Option<Seq<char>>,
    pub task_idle_check_duration: ConfigDuration,
    pub task_idle_max_count: usize,
    pub flush_task_log_on_created: bool,
    pub flush_task_log_on_connected: bool,
    pub task_log_flush_interval: Option<ConfigDuration>,
    pub tcp_copy_buffer_size: usize,
    pub tcp_copy_yield_size: usize,
    pub tcp_misc_opts: Option<Seq<char>>,
}

impl CommonView {
    /// The settings of a server of which nothing is configured.
    pub open spec fn init(position: Option<(Seq<char>, usize)>) -> CommonView {
        CommonView {
            name: Seq::empty(),
            position,
            shared_logger: None,
            listen: TcpListenView::init(),
            listen_in_worker: false,
            ingress_net_filter: None,
            extra_metrics_tags: None,
            tcp_sock_speed_limit: None,
            task_idle_check_duration: ConfigDuration::spec_from_secs(IDLE_CHECK_DEFAULT_SECS),
            task_idle_max_count: IDLE_CHECK_DEFAULT_MAX_COUNT,
            flush_task_log_on_created: false,
            flush_task_log_on_connected: false,
            task_log_flush_interval: None,
            tcp_copy_buffer_size: DEFAULT_COPY_BUFFER_SIZE,
            tcp_copy_yield_size: DEFAULT_COPY_YIELD_SIZE,
            tcp_misc_opts: None,
        }
    }

    /// The settings after `key` was set to `v`, for a value that fits the
    /// key. The type of the server is not a setting; sizes of the copy are
    /// raised to their minimum.
    pub open spec fn set(self, key: ServerConfigKey, v: ConfigValueView) -> CommonView {
        match (key, v) {
            (ServerConfigKey::Name, ConfigValueView::Name(s)) => CommonView { name: s, ..self },
            (ServerConfigKey::SharedLogger, ConfigValueView::Ascii(s)) => CommonView {
                shared_logger: Some(s),
                ..self
            },
            (ServerConfigKey::ExtraMetricsTags, ConfigValueView::Raw(s)) => CommonView {
                extra_metrics_tags: Some(s),
                ..self
            },
            (ServerConfigKey::Listen, ConfigValueView::Listen(l)) => CommonView {
                listen: l,
                ..self
            },
            (ServerConfigKey::ListenInWorker, ConfigValueView::Bool(b)) => CommonView {
                listen_in_worker: b,
                ..self
            },
            (ServerConfigKey::IngressNetFilter, ConfigValueView::Raw(s)) => CommonView {
                ingress_net_filter: Some(s),
                ..self
            },
            (ServerConfigKey::TcpSockSpeedLimit, ConfigValueView::Raw(s)) => CommonView {
                tcp_sock_speed_limit: Some(s),
                ..self
            },
            (ServerConfigKey::TcpCopyBufferSize, ConfigValueView::Usize(n)) => CommonView {
                tcp_copy_buffer_size: raised(n, MINIMAL_COPY_BUFFER_SIZE),
                ..self
            },
            (ServerConfigKey::TcpCopyYieldSize, ConfigValueView::Usize(n)) => CommonView {
                tcp_copy_yield_size: raised(n, MINIMAL_COPY_YIELD_SIZE),
                ..self
            },
            (ServerConfigKey::TcpMiscOpts, ConfigValueView::Raw(s)) => CommonView {
                tcp_misc_opts: Some(s),
                ..self
            },
            (ServerConfigKey::TaskIdleCheckDuration, ConfigValueView::Duration(d)) => CommonView {
                task_idle_check_duration: d,
                ..self
            },
            (ServerConfigKey::TaskIdleMaxCount, ConfigValueView::Usize(n)) => CommonView {
                task_idle_max_count: n,
                ..self
            },
            (ServerConfigKey::FlushTaskLogOnCreated, ConfigValueView::Bool(b)) => CommonView {
                flush_task_log_on_created: b,
                ..self
            },
            (ServerConfigKey::FlushTaskLogOnConnected, ConfigValueView::Bool(b)) => CommonView {
                flush_task_log_on_connected: b,
                ..self
            },
            (ServerConfigKey::TaskLogFlushInterval, ConfigValueView::Duration(d)) => CommonView {
                task_log_flush_interval: Some(d),
                ..self
            },
            _ => self,
        }
    }

    /// The settings with the idle check interval cut to its maximum.
    pub open spec fn checked(self) -> CommonView {
        CommonView {
            task_idle_check_duration: self.task_idle_check_duration.capped(
                IDLE_CHECK_MAXIMUM_SECS,
            ),
            ..self
        }
    }
}

/// The view of a position that may be missing.
pub open spec fn opt_position(p: Option<YamlDocPosition>) -> Option<(Seq<char>, usize)> {
    match p {
        Some(p) => Some((p.path@, p.index)),
        None => None,
    }
}

/// The settings that every stream server has.
#[derive(Debug)]
pub struct CommonServerConfig {
    pub name: String,
    pub position: Option<YamlDocPosition>,
    pub shared_logger: Option<String>,
    pub listen: TcpListenConfig,
    pub listen_in_worker: bool,
    pub ingress_net_filter: Option<String>,
    pub extra_metrics_tags: Option<String>,
    pub tcp_sock_speed_limit: Option<String>,
    pub task_idle_check_duration: ConfigDuration,
    pub task_idle_max_count: usize,
    pub flush_task_log_on_created: bool,
    pub flush_task_log_on_connected: bool,
    pub task_log_flush_interval: Option<ConfigDuration>,
    pub tcp_copy: StreamCopyConfig,
    pub tcp_misc_opts: Option<String>,
}

impl View for CommonServerConfig {
    type V = CommonView;

    open spec fn view(&self) -> CommonView {
        CommonView {
            name: self.name@,
            position: opt_position(self.position),
            shared_logger: opt_text(self.shared_logger),
            listen: self.listen@,
            listen_in_worker: self.listen_in_worker,
            ingress_net_filter: opt_text(self.ingress_net_filter),
            extra_metrics_tags: opt_text(self.extra_metrics_tags),
            tcp_sock_speed_limit: opt_text(self.tcp_sock_speed_limit),
            task_idle_check_duration: self.task_idle_check_duration,
            task_idle_max_count: self.task_idle_max_count,
            flush_task_log_on_created: self.flush_task_log_on_created,
            flush_task_log_on_connected: self.flush_task_log_on_connected,
            task_log_flush_interval: self.task_log_flush_interval,
            tcp_copy_buffer_size: self.tcp_copy.spec_buffer_size(),
            tcp_copy_yield_size: self.tcp_copy.spec_yield_size(),
            tcp_misc_opts: opt_text(self.tcp_misc_opts),
        }
    }
}

/// Whether two positions that may be missing are the same.
pub fn opt_position_eq(a: &Option<YamlDocPosition>, b: &Option<YamlDocPosition>) -> (r: bool)
    ensures
        r == (opt_position(*a) == opt_position(*b)),
{
    match (a, b) {
        (Some(x), Some(y)) => text_eq(&x.path, &y.path) && x.index == y.index,
        (None, None) => true,
        _ => false,
    }
}

/// Whether two spans of time that may be missing are the same.
pub fn opt_duration_eq(a: Option<ConfigDuration>, b: Option<ConfigDuration>) -> (r: bool)
    ensures
        r == (a == b),
{
    match (a, b) {
        (Some(x), Some(y)) => x == y,
        (None, None) => true,
        _ => false,
    }
}

impl CommonServerConfig {
    /// The settings of a server of which nothing is configured.
    pub fn new(position: Option<YamlDocPosition>) -> (r: Self)
        ensures
            r@ == CommonView::init(opt_position(position)),
    {
        CommonServerConfig {
            name: String::new(),
            position,
            shared_logger: None,
            listen: TcpListenConfig::new(),
            listen_in_worker: false,
            ingress_net_filter: None,
            extra_metrics_tags: None,
            tcp_sock_speed_limit: None,
            task_idle_check_duration: ConfigDuration::from_secs(IDLE_CHECK_DEFAULT_SECS),
            task_idle_max_count: IDLE_CHECK_DEFAULT_MAX_COUNT,
            flush_task_log_on_created: false,
            flush_task_log_on_connected: false,
            task_log_flush_interval: None,
            tcp_copy: StreamCopyConfig::default(),
            tcp_misc_opts: None,
        }
    }

    /// Sets `key` to `v`, which fits the key.
    pub fn set(&mut self, key: ServerConfigKey, v: &ConfigValue)
        requires
            v@.fits(key.spec_kind()),
        ensures
            final(self)@ == old(self)@.set(key, v@),
    {
        match (key, v) {
            (ServerConfigKey::Name, ConfigValue::Name(s)) => {
                self.name = s.clone();
            },
            (ServerConfigKey::SharedLogger, ConfigValue::Ascii(s)) => {
                self.shared_logger = Some(s.clone());
            },
            (ServerConfigKey::ExtraMetricsTags, ConfigValue::Raw(s)) => {
                self.extra_metrics_tags = Some(s.clone());
            },
            (ServerConfigKey::Listen, ConfigValue::Listen(l)) => {
                self.listen = l.duplicate();
            },
            (ServerConfigKey::ListenInWorker, ConfigValue::Bool(b)) => {
                self.listen_in_worker = *b;
            },
            (ServerConfigKey::IngressNetFilter, ConfigValue::Raw(s)) => {
                self.ingress_net_filter = Some(s.clone());
            },
            (ServerConfigKey::TcpSockSpeedLimit, ConfigValue::Raw(s)) => {
                self.tcp_sock_speed_limit = Some(s.clone());
            },
            (ServerConfigKey::TcpCopyBufferSize, ConfigValue::Usize(n)) => {
                self.tcp_copy.set_buffer_size(*n);
            },
            (ServerConfigKey::TcpCopyYieldSize, ConfigValue::Usize(n)) => {
                self.tcp_copy.set_yield_size(*n);
            },
            (ServerConfigKey::TcpMiscOpts, ConfigValue::Raw(s)) => {
                self.tcp_misc_opts = Some(s.clone());
            },
            (ServerConfigKey::TaskIdleCheckDuration, ConfigValue::Duration(d)) => {
                self.task_idle_check_duration = *d;
            },
            (ServerConfigKey::TaskIdleMaxCount, ConfigValue::Usize(n)) => {
                self.task_idle_max_count = *n;
            },
            (ServerConfigKey::FlushTaskLogOnCreated, ConfigValue::Bool(b)) => {
                self.flush_task_log_on_created = *b;
            },
            (ServerConfigKey::FlushTaskLogOnConnected, ConfigValue::Bool(b)) => {
                self.flush_task_log_on_connected = *b;
            },
            (ServerConfigKey::TaskLogFlushInterval, ConfigValue::Duration(d)) => {
                self.task_log_flush_interval = Some(*d);
            },
            _ => {},
        }
    }

    /// Cuts the idle check interval to its maximum.
    pub fn check(&mut self)
        ensures
            final(self)@ == old(self)@.checked(),
    {
        if self.task_idle_check_duration.longer_than_secs(IDLE_CHECK_MAXIMUM_SECS) {
            self.task_idle_check_duration = ConfigDuration::from_secs(IDLE_CHECK_MAXIMUM_SECS);
        }
    }

    /// Whether two servers have the same common settings.
    pub fn same(&self, other: &CommonServerConfig) -> (r: bool)
        ensures
            r == (self@ == other@),
    {
        text_eq(&self.name, &other.name) && opt_position_eq(&self.position, &other.position)
            && opt_text_eq(&self.shared_logger, &other.shared_logger) && self.listen.same(
            &other.listen,
        ) && self.listen_in_worker == other.listen_in_worker && opt_text_eq(
            &self.ingress_net_filter,
            &other.ingress_net_filter,
        ) && opt_text_eq(&self.extra_metrics_tags, &other.extra_metrics_tags) && opt_text_eq(
            &self.tcp_sock_speed_limit,
            &other.tcp_sock_speed_limit,
        ) && self.task_idle_check_duration == other.task_idle_check_duration
            && self.task_idle_max_count == other.task_idle_max_count
            && self.flush_task_log_on_created == other.flush_task_log_on_created
            && self.flush_task_log_on_connected == other.flush_task_log_on_connected
            && opt_duration_eq(self.task_log_flush_interval, other.task_log_flush_interval)
            && self.tcp_copy.same(&other.tcp_copy) && opt_text_eq(
            &self.tcp_misc_opts,
            &other.tcp_misc_opts,
        )
    }
}

} // verus!
