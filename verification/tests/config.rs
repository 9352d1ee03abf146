use g3_transfer::config::common::{KeyMatch, ServerConfigKey};
use g3_transfer::config::key::{bytes_eq, key_is, normalize};
use g3_transfer::config::openssl_proxy::{openssl_key, OpensslProxyServerConfig};
use g3_transfer::config::tcp_tproxy::{tproxy_key, TcpTProxyServerConfig};
use g3_transfer::config::value::{
    ConfigDuration, ConfigError, ConfigValue, HostTable, ServerConfigDiffAction, TcpListenConfig,
    ValueKind, YamlDocPosition,
};
use g3_transfer::udp::addr::{IpAddress, SocketAddress};

fn name(s: &str) -> ConfigValue {
    ConfigValue::Name(s.to_string())
}

fn raw(s: &str) -> ConfigValue {
    ConfigValue::Raw(s.to_string())
}

/// A listen configuration on the unspecified IPv6 address.
fn listen(port: u16) -> ConfigValue {
    ConfigValue::Listen(TcpListenConfig {
        address: SocketAddress {
            ip: IpAddress::V6(0),
            port,
        },
        options: String::new(),
    })
}

fn hosts(count: usize) -> ConfigValue {
    ConfigValue::Hosts(HostTable {
        count,
        text: "- name: a".to_string(),
    })
}

fn canonical(key: ServerConfigKey) -> KeyMatch {
    KeyMatch {
        key,
        deprecated: false,
    }
}

fn tproxy() -> TcpTProxyServerConfig {
    let mut c = TcpTProxyServerConfig::new(None);
    c.set("name", &name("tp")).unwrap();
    c.set("escaper", &name("direct")).unwrap();
    c.set("listen", &listen(3128)).unwrap();
    c
}

fn openssl() -> OpensslProxyServerConfig {
    let mut c = OpensslProxyServerConfig::new(None);
    c.set("name", &name("tls")).unwrap();
    c.set("hosts", &hosts(1)).unwrap();
    c
}

#[test]
fn keys_are_matched_in_normal_form() {
    assert_eq!(normalize("Tcp-Copy-Buffer_Size"), b"tcp_copy_buffer_size");
    assert_eq!(normalize("listen"), b"listen");
    assert_eq!(normalize(""), b"");
    assert_eq!(normalize("A-Z@[`{"), b"a_z@[`{");
    assert!(key_is(&normalize("LISTEN"), "listen"));
    assert!(!key_is(&normalize("listen2"), "listen"));
    assert!(bytes_eq(b"abc", b"abc"));
    assert!(!bytes_eq(b"abc", b"abd"));
    assert!(!bytes_eq(b"abc", b"ab"));
    assert!(bytes_eq(b"", b""));
}

#[test]
fn tproxy_keys() {
    assert_eq!(tproxy_key("type"), Some(canonical(ServerConfigKey::Type)));
    assert_eq!(tproxy_key("name"), Some(canonical(ServerConfigKey::Name)));
    assert_eq!(tproxy_key("Escaper"), Some(canonical(ServerConfigKey::Escaper)));
    assert_eq!(tproxy_key("auditor"), Some(canonical(ServerConfigKey::Auditor)));
    assert_eq!(
        tproxy_key("ingress-network-filter"),
        Some(canonical(ServerConfigKey::IngressNetFilter))
    );
    assert_eq!(
        tproxy_key("ingress_net_filter"),
        Some(canonical(ServerConfigKey::IngressNetFilter))
    );
    assert_eq!(
        tproxy_key("tcp_sock_speed_limit"),
        Some(canonical(ServerConfigKey::TcpSockSpeedLimit))
    );
    for old in ["tcp_conn_speed_limit", "tcp_conn_limit", "conn_limit", "Conn-Limit"] {
        assert_eq!(
            tproxy_key(old),
            Some(KeyMatch {
                key: ServerConfigKey::TcpSockSpeedLimit,
                deprecated: true
            })
        );
    }
    assert_eq!(tproxy_key("hosts"), None);
    assert_eq!(tproxy_key("tls_ticketer"), None);
    assert_eq!(tproxy_key("no_such_key"), None);
    assert_eq!(tproxy_key(""), None);
}

#[test]
fn openssl_keys() {
    for alias in ["accept_timeout", "handshake_timeout", "negotiation_timeout"] {
        assert_eq!(
            openssl_key(alias),
            Some(canonical(ServerConfigKey::AcceptTimeout))
        );
    }
    for alias in ["virtual_hosts", "hosts"] {
        assert_eq!(openssl_key(alias), Some(canonical(ServerConfigKey::Hosts)));
    }
    for alias in ["spawn_task_unconstrained", "task_unconstrained"] {
        assert_eq!(
            openssl_key(alias),
            Some(canonical(ServerConfigKey::SpawnTaskUnconstrained))
        );
    }
    assert_eq!(
        openssl_key("tcp_conn_speed_limit"),
        Some(KeyMatch {
            key: ServerConfigKey::TcpSockSpeedLimit,
            deprecated: true
        })
    );
    assert_eq!(
        openssl_key("Conn-Limit"),
        Some(KeyMatch {
            key: ServerConfigKey::TcpSockSpeedLimit,
            deprecated: true
        })
    );
    assert_eq!(openssl_key("tcp_conn_limit"), None);
    assert_eq!(openssl_key("escaper"), None);
    assert_eq!(openssl_key("auditor"), None);
}

#[test]
fn value_kinds() {
    assert_eq!(TcpTProxyServerConfig::value_kind("type"), Some(ValueKind::Any));
    assert_eq!(TcpTProxyServerConfig::value_kind("name"), Some(ValueKind::Name));
    assert_eq!(
        TcpTProxyServerConfig::value_kind("shared_logger"),
        Some(ValueKind::Ascii)
    );
    assert_eq!(
        TcpTProxyServerConfig::value_kind("listen"),
        Some(ValueKind::Listen)
    );
    assert_eq!(
        OpensslProxyServerConfig::value_kind("virtual-hosts"),
        Some(ValueKind::Hosts)
    );
    assert_eq!(
        TcpTProxyServerConfig::value_kind("listen_in_worker"),
        Some(ValueKind::Bool)
    );
    assert_eq!(
        TcpTProxyServerConfig::value_kind("tcp_copy_yield_size"),
        Some(ValueKind::Usize)
    );
    assert_eq!(
        TcpTProxyServerConfig::value_kind("task_idle_check_duration"),
        Some(ValueKind::Duration)
    );
    assert_eq!(TcpTProxyServerConfig::value_kind("bogus"), None);
    assert_eq!(
        OpensslProxyServerConfig::value_kind("client_hello_max_size"),
        Some(ValueKind::U32)
    );
    assert_eq!(
        OpensslProxyServerConfig::value_kind("tls-ticketer"),
        Some(ValueKind::Raw)
    );
    assert_eq!(OpensslProxyServerConfig::value_kind("escaper"), None);
}

#[test]
fn tproxy_defaults() {
    let c = TcpTProxyServerConfig::new(None);
    assert_eq!(c.name(), "");
    assert_eq!(c.escaper(), "");
    assert_eq!(c.auditor(), "");
    assert_eq!(c.user_group(), "");
    assert_eq!(c.server_type(), "TcpTProxy");
    assert!(c.position().is_none());
    assert!(c.shared_logger().is_none());
    assert_eq!(c.task_log_flush_interval(), None);
    assert_eq!(c.task_max_idle_count(), 5);
    assert_eq!(c.task_idle_check_duration(), ConfigDuration::from_secs(60));
    assert_eq!(c.limited_copy_config().buffer_size(), 16384);
    assert_eq!(c.limited_copy_config().yield_size(), 1048576);
    assert!(!c.transparent());
    assert!(!c.common().listen_in_worker);
    assert_eq!(c.common().listen.address.port, 0);
    assert_eq!(c.common().listen.address.ip, IpAddress::V6(0));
    assert_eq!(c.common().listen.options, "");
}

#[test]
fn tproxy_set_every_key() {
    let mut c = TcpTProxyServerConfig::new(None);
    assert_eq!(
        c.set("type", &ConfigValue::Bool(true)),
        Ok(canonical(ServerConfigKey::Type))
    );
    assert_eq!(c.set("name", &name("tp")), Ok(canonical(ServerConfigKey::Name)));
    c.set("escaper", &name("direct")).unwrap();
    c.set("auditor", &name("audit")).unwrap();
    c.set("shared_logger", &ConfigValue::Ascii("shared".to_string()))
        .unwrap();
    c.set("extra_metrics_tags", &raw("a: b")).unwrap();
    c.set("listen", &listen(3128)).unwrap();
    c.set("listen_in_worker", &ConfigValue::Bool(true)).unwrap();
    c.set("ingress_net_filter", &raw("default: forbid")).unwrap();
    c.set("tcp_sock_speed_limit", &raw("10M")).unwrap();
    c.set("tcp_copy_buffer_size", &ConfigValue::Usize(65536)).unwrap();
    c.set("tcp_copy_yield_size", &ConfigValue::Usize(2097152)).unwrap();
    c.set("tcp_misc_opts", &raw("no_delay: true")).unwrap();
    c.set(
        "task_idle_check_duration",
        &ConfigValue::Duration(ConfigDuration::from_secs(30)),
    )
    .unwrap();
    c.set("task_idle_max_count", &ConfigValue::Usize(9)).unwrap();
    c.set("flush_task_log_on_created", &ConfigValue::Bool(true)).unwrap();
    c.set("flush_task_log_on_connected", &ConfigValue::Bool(true)).unwrap();
    c.set(
        "task_log_flush_interval",
        &ConfigValue::Duration(ConfigDuration {
            secs: 1,
            subsec_nanos: 500_000_000,
        }),
    )
    .unwrap();

    assert_eq!(c.name(), "tp");
    assert_eq!(c.escaper(), "direct");
    assert_eq!(c.auditor(), "audit");
    assert_eq!(c.shared_logger().as_deref(), Some("shared"));
    let common = c.common();
    assert_eq!(common.extra_metrics_tags.as_deref(), Some("a: b"));
    assert_eq!(common.listen.address.port, 3128);
    assert!(common.listen_in_worker);
    assert_eq!(common.ingress_net_filter.as_deref(), Some("default: forbid"));
    assert_eq!(common.tcp_sock_speed_limit.as_deref(), Some("10M"));
    assert_eq!(common.tcp_misc_opts.as_deref(), Some("no_delay: true"));
    assert!(common.flush_task_log_on_created);
    assert!(common.flush_task_log_on_connected);
    assert_eq!(c.limited_copy_config().buffer_size(), 65536);
    assert_eq!(c.limited_copy_config().yield_size(), 2097152);
    assert_eq!(c.task_idle_check_duration(), ConfigDuration::from_secs(30));
    assert_eq!(c.task_max_idle_count(), 9);
    assert_eq!(
        c.task_log_flush_interval(),
        Some(ConfigDuration {
            secs: 1,
            subsec_nanos: 500_000_000
        })
    );
}

#[test]
fn copy_sizes_are_raised_to_their_minimum() {
    let mut c = TcpTProxyServerConfig::new(None);
    c.set("tcp_copy_buffer_size", &ConfigValue::Usize(1)).unwrap();
    c.set("tcp_copy_yield_size", &ConfigValue::Usize(1)).unwrap();
    assert_eq!(c.limited_copy_config().buffer_size(), 4096);
    assert_eq!(c.limited_copy_config().yield_size(), 262144);
}

#[test]
fn deprecated_keys_set_the_canonical_setting() {
    let mut c = TcpTProxyServerConfig::new(None);
    assert_eq!(
        c.set("conn_limit", &raw("1M")),
        Ok(KeyMatch {
            key: ServerConfigKey::TcpSockSpeedLimit,
            deprecated: true
        })
    );
    assert_eq!(c.common().tcp_sock_speed_limit.as_deref(), Some("1M"));
    let mut d = TcpTProxyServerConfig::new(None);
    d.set("tcp_sock_speed_limit", &raw("1M")).unwrap();
    assert!(c.same(&d));

    let mut o = OpensslProxyServerConfig::new(None);
    assert_eq!(
        o.set("tcp_conn_speed_limit", &raw("2M")),
        Ok(KeyMatch {
            key: ServerConfigKey::TcpSockSpeedLimit,
            deprecated: true
        })
    );
    assert_eq!(o.common().tcp_sock_speed_limit.as_deref(), Some("2M"));
}

#[test]
fn unknown_keys_and_wrong_values_are_rejected() {
    let mut c = tproxy();
    let before = tproxy();
    assert_eq!(c.set("bogus", &raw("x")), Err(ConfigError::InvalidKey));
    assert_eq!(
        c.set("name", &ConfigValue::Bool(true)),
        Err(ConfigError::InvalidValue(ValueKind::Name))
    );
    assert_eq!(
        c.set("listen_in_worker", &raw("yes")),
        Err(ConfigError::InvalidValue(ValueKind::Bool))
    );
    assert_eq!(
        c.set("task_idle_max_count", &ConfigValue::U32(3)),
        Err(ConfigError::InvalidValue(ValueKind::Usize))
    );
    assert_eq!(
        c.set("shared_logger", &ConfigValue::Ascii("caf\u{e9}".to_string())),
        Err(ConfigError::InvalidValue(ValueKind::Ascii))
    );
    assert_eq!(
        c.set("hosts", &raw("x")),
        Err(ConfigError::InvalidKey)
    );
    assert!(c.same(&before));
}

#[test]
fn tproxy_check() {
    let mut c = TcpTProxyServerConfig::new(None);
    assert_eq!(c.check(), Err(ConfigError::NameNotSet));
    c.set("name", &name("tp")).unwrap();
    assert_eq!(c.check(), Err(ConfigError::EscaperNotSet));
    assert!(!c.transparent());
    c.set("escaper", &name("direct")).unwrap();
    c.set(
        "task_idle_check_duration",
        &ConfigValue::Duration(ConfigDuration {
            secs: 300,
            subsec_nanos: 1,
        }),
    )
    .unwrap();
    assert_eq!(c.check(), Err(ConfigError::NoListenPortSet));
    assert!(c.transparent());
    assert_eq!(c.task_idle_check_duration(), ConfigDuration::from_secs(300));
    c.set("listen", &listen(3128)).unwrap();
    assert_eq!(c.check(), Ok(()));
}

#[test]
fn idle_check_duration_is_cut_to_its_maximum() {
    for (given, kept) in [
        (ConfigDuration::from_secs(299), ConfigDuration::from_secs(299)),
        (ConfigDuration::from_secs(300), ConfigDuration::from_secs(300)),
        (ConfigDuration::from_secs(301), ConfigDuration::from_secs(300)),
        (ConfigDuration::from_secs(3600), ConfigDuration::from_secs(300)),
        (
            ConfigDuration {
                secs: 299,
                subsec_nanos: 999_999_999,
            },
            ConfigDuration {
                secs: 299,
                subsec_nanos: 999_999_999,
            },
        ),
    ] {
        let mut c = tproxy();
        c.set("task_idle_check_duration", &ConfigValue::Duration(given))
            .unwrap();
        assert_eq!(c.check(), Ok(()));
        assert_eq!(c.task_idle_check_duration(), kept);
    }
    assert!(ConfigDuration::from_secs(5).longer_than_secs(4));
    assert!(!ConfigDuration::from_secs(5).longer_than_secs(5));
}

#[test]
fn tproxy_diff_action() {
    let a = tproxy();
    assert_eq!(a.diff_action(None), ServerConfigDiffAction::SpawnNew);
    assert_eq!(a.diff_action(Some(&tproxy())), ServerConfigDiffAction::NoAction);
    let mut b = tproxy();
    b.set("listen", &listen(3129)).unwrap();
    assert_eq!(
        a.diff_action(Some(&b)),
        ServerConfigDiffAction::ReloadAndRespawn
    );
    let mut c = tproxy();
    c.set("auditor", &name("audit")).unwrap();
    assert_eq!(
        a.diff_action(Some(&c)),
        ServerConfigDiffAction::ReloadNoRespawn
    );
    let mut d = tproxy();
    d.set("task_idle_max_count", &ConfigValue::Usize(7)).unwrap();
    assert_eq!(
        a.diff_action(Some(&d)),
        ServerConfigDiffAction::ReloadNoRespawn
    );
    let e = TcpTProxyServerConfig::new(Some(YamlDocPosition {
        path: "/etc/main.yaml".to_string(),
        index: 2,
    }));
    assert!(!e.same(&TcpTProxyServerConfig::new(None)));
    assert!(e.same(&TcpTProxyServerConfig::new(Some(YamlDocPosition {
        path: "/etc/main.yaml".to_string(),
        index: 2,
    }))));
    assert!(!e.same(&TcpTProxyServerConfig::new(Some(YamlDocPosition {
        path: "/etc/main.yaml".to_string(),
        index: 3,
    }))));
}

#[test]
fn tproxy_parse() {
    let entries = vec![
        ("type".to_string(), ConfigValue::Name("TcpTProxy".to_string())),
        ("name".to_string(), name("tp")),
        ("Escaper".to_string(), name("direct")),
        ("listen".to_string(), listen(3128)),
        (
            "task-idle-check-duration".to_string(),
            ConfigValue::Duration(ConfigDuration::from_secs(900)),
        ),
    ];
    let c = TcpTProxyServerConfig::parse(&entries, None).unwrap();
    assert_eq!(c.name(), "tp");
    assert_eq!(c.escaper(), "direct");
    assert!(c.transparent());
    assert_eq!(c.task_idle_check_duration(), ConfigDuration::from_secs(300));

    let mut bad = vec![("name".to_string(), name("tp"))];
    assert_eq!(
        TcpTProxyServerConfig::parse(&bad, None).unwrap_err(),
        ConfigError::EscaperNotSet
    );
    bad.push(("bogus".to_string(), raw("x")));
    bad.push(("name".to_string(), ConfigValue::Bool(true)));
    assert_eq!(
        TcpTProxyServerConfig::parse(&bad, None).unwrap_err(),
        ConfigError::InvalidKey
    );
    assert_eq!(
        TcpTProxyServerConfig::parse(&Vec::new(), None).unwrap_err(),
        ConfigError::NameNotSet
    );
}

#[test]
fn openssl_defaults_and_settings() {
    let mut c = OpensslProxyServerConfig::new(None);
    assert_eq!(c.server_type(), "OpensslProxy");
    assert_eq!(c.client_hello_recv_timeout(), ConfigDuration::from_secs(10));
    assert_eq!(c.client_hello_max_size(), 16384);
    assert_eq!(c.accept_timeout(), ConfigDuration::from_secs(60));
    assert!(c.hosts().is_empty());
    assert!(c.tls_ticketer().is_none());
    assert!(!c.spawn_task_unconstrained());
    assert!(!c.alert_unrecognized_name());

    c.set(
        "client_hello_recv_timeout",
        &ConfigValue::Duration(ConfigDuration::from_secs(3)),
    )
    .unwrap();
    c.set("client_hello_max_size", &ConfigValue::U32(4096)).unwrap();
    c.set(
        "handshake_timeout",
        &ConfigValue::Duration(ConfigDuration::from_secs(20)),
    )
    .unwrap();
    c.set("virtual_hosts", &hosts(2)).unwrap();
    c.set("tls_ticketer", &raw("source: redis")).unwrap();
    c.set("task_unconstrained", &ConfigValue::Bool(true)).unwrap();
    c.set("alert_unrecognized_name", &ConfigValue::Bool(true)).unwrap();
    c.set("name", &name("tls")).unwrap();
    c.set("tcp_copy_buffer_size", &ConfigValue::Usize(8192)).unwrap();

    assert_eq!(c.client_hello_recv_timeout(), ConfigDuration::from_secs(3));
    assert_eq!(c.client_hello_max_size(), 4096);
    assert_eq!(c.accept_timeout(), ConfigDuration::from_secs(20));
    assert_eq!(c.hosts().count, 2);
    assert_eq!(c.hosts().text, "- name: a");
    assert_eq!(c.tls_ticketer().as_deref(), Some("source: redis"));
    assert!(c.spawn_task_unconstrained());
    assert!(c.alert_unrecognized_name());
    assert_eq!(c.name(), "tls");
    assert_eq!(c.common().tcp_copy.buffer_size(), 8192);
    assert!(c.position().is_none());
}

#[test]
fn openssl_check_and_diff() {
    let mut c = OpensslProxyServerConfig::new(None);
    assert_eq!(c.check(), Err(ConfigError::NameNotSet));
    c.set("name", &name("tls")).unwrap();
    assert_eq!(c.check(), Err(ConfigError::NoHostConfigSet));
    c.set("hosts", &hosts(1)).unwrap();
    c.set(
        "task_idle_check_duration",
        &ConfigValue::Duration(ConfigDuration::from_secs(1000)),
    )
    .unwrap();
    assert_eq!(c.check(), Ok(()));
    assert_eq!(
        c.common().task_idle_check_duration,
        ConfigDuration::from_secs(300)
    );

    let a = openssl();
    assert_eq!(a.diff_action(None), ServerConfigDiffAction::SpawnNew);
    assert_eq!(a.diff_action(Some(&openssl())), ServerConfigDiffAction::NoAction);
    let mut b = openssl();
    b.set("listen", &listen(443)).unwrap();
    assert_eq!(
        a.diff_action(Some(&b)),
        ServerConfigDiffAction::ReloadAndRespawn
    );
    let mut d = openssl();
    d.set("alert_unrecognized_name", &ConfigValue::Bool(true)).unwrap();
    assert_eq!(
        a.diff_action(Some(&d)),
        ServerConfigDiffAction::ReloadNoRespawn
    );
}

#[test]
fn openssl_parse() {
    let entries = vec![
        ("name".to_string(), name("tls")),
        ("hosts".to_string(), hosts(1)),
        ("accept-timeout".to_string(), ConfigValue::Duration(ConfigDuration::from_secs(5))),
    ];
    let c = OpensslProxyServerConfig::parse(&entries, None).unwrap();
    assert_eq!(c.accept_timeout(), ConfigDuration::from_secs(5));
    let bad = vec![
        ("name".to_string(), name("tls")),
        ("client_hello_max_size".to_string(), ConfigValue::Usize(1)),
    ];
    assert_eq!(
        OpensslProxyServerConfig::parse(&bad, None).unwrap_err(),
        ConfigError::InvalidValue(ValueKind::U32)
    );
    let nameless_host = vec![("name".to_string(), name("tls"))];
    assert_eq!(
        OpensslProxyServerConfig::parse(&nameless_host, None).unwrap_err(),
        ConfigError::NoHostConfigSet
    );
}

#[test]
fn values_know_their_kind() {
    assert_eq!(ConfigValue::Bool(true).kind(), ValueKind::Bool);
    assert_eq!(ConfigValue::Usize(1).kind(), ValueKind::Usize);
    assert_eq!(ConfigValue::U32(1).kind(), ValueKind::U32);
    assert_eq!(
        ConfigValue::Duration(ConfigDuration::from_secs(1)).kind(),
        ValueKind::Duration
    );
    assert_eq!(name("a").kind(), ValueKind::Name);
    assert_eq!(ConfigValue::Ascii("a".to_string()).kind(), ValueKind::Ascii);
    assert_eq!(raw("a").kind(), ValueKind::Raw);
    assert!(raw("a").fits(ValueKind::Any));
    assert!(raw("a").fits(ValueKind::Raw));
    assert!(!raw("a").fits(ValueKind::Name));
    assert!(ConfigValue::Ascii("plain".to_string()).fits(ValueKind::Ascii));
    assert!(!ConfigValue::Ascii("\u{fc}".to_string()).fits(ValueKind::Ascii));
}

#[test]
fn listen_needs_a_port() {
    assert_eq!(
        TcpListenConfig::new().check(),
        Err(ConfigError::NoListenPortSet)
    );
    let mut c = tproxy();
    assert_eq!(c.check(), Ok(()));
    c.set("listen", &listen(0)).unwrap();
    assert_eq!(c.check(), Err(ConfigError::NoListenPortSet));
    c.set("listen", &listen(1)).unwrap();
    assert_eq!(c.check(), Ok(()));
    assert_eq!(
        c.set("listen", &raw("[::]:3128")),
        Err(ConfigError::InvalidValue(ValueKind::Listen))
    );
    assert_eq!(c.common().listen.address.port, 1);
}

#[test]
fn listen_is_compared_by_address_and_options() {
    let a = tproxy();
    let mut b = tproxy();
    b.set(
        "listen",
        &ConfigValue::Listen(TcpListenConfig {
            address: SocketAddress {
                ip: IpAddress::V6(0),
                port: 3128,
            },
            options: "backlog: 10".to_string(),
        }),
    )
    .unwrap();
    assert_eq!(
        a.diff_action(Some(&b)),
        ServerConfigDiffAction::ReloadAndRespawn
    );
    let mut c = tproxy();
    c.set(
        "listen",
        &ConfigValue::Listen(TcpListenConfig {
            address: SocketAddress {
                ip: IpAddress::V4(0),
                port: 3128,
            },
            options: String::new(),
        }),
    )
    .unwrap();
    assert_eq!(
        a.diff_action(Some(&c)),
        ServerConfigDiffAction::ReloadAndRespawn
    );
    let mut d = tproxy();
    d.set("listen", &listen(3128)).unwrap();
    assert_eq!(a.diff_action(Some(&d)), ServerConfigDiffAction::NoAction);
}

#[test]
fn host_table_must_hold_a_host() {
    assert!(HostTable::new().is_empty());
    let mut c = OpensslProxyServerConfig::new(None);
    c.set("name", &name("tls")).unwrap();
    c.set("hosts", &hosts(0)).unwrap();
    assert_eq!(c.check(), Err(ConfigError::NoHostConfigSet));
    c.set("hosts", &hosts(3)).unwrap();
    assert_eq!(c.check(), Ok(()));
    assert_eq!(
        c.set("hosts", &raw("- name: a")),
        Err(ConfigError::InvalidValue(ValueKind::Hosts))
    );
    assert_eq!(c.hosts().count, 3);
}

#[test]
fn openssl_accepts_conn_limit() {
    let mut c = OpensslProxyServerConfig::new(None);
    assert_eq!(
        c.set("conn_limit", &raw("2M")),
        Ok(KeyMatch {
            key: ServerConfigKey::TcpSockSpeedLimit,
            deprecated: true
        })
    );
    let mut d = OpensslProxyServerConfig::new(None);
    assert_eq!(
        d.set("tcp_sock_speed_limit", &raw("2M")),
        Ok(KeyMatch {
            key: ServerConfigKey::TcpSockSpeedLimit,
            deprecated: false
        })
    );
    assert!(c.same(&d));
    assert_eq!(c.common().tcp_sock_speed_limit.as_deref(), Some("2M"));
    assert_eq!(
        c.set("conn_limit", &ConfigValue::Bool(true)),
        Err(ConfigError::InvalidValue(ValueKind::Raw))
    );
}
