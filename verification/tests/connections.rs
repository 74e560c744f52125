use ambry::engine::{connection_url, create, AdapterSettings, MysqlAdapter, PostgresAdapter};
use ambry::host::{after_tunnel, test_config, test_result, with_database, ConnectStep, Host};
use ambry::registry::{
    connection_not_found, not_connected, startup_commands, through_tunnel, wants_tunnel,
    KeyedTable, Registry,
};
use ambry::types::{ConnectionConfig, Health, SshConfig, SslConfig};

fn config(kind: &str) -> ConnectionConfig {
    ConnectionConfig {
        id: "c1".into(),
        kind: kind.into(),
        host: "db.example".into(),
        port: 5432,
        database: "app".into(),
        username: "me".into(),
        password: "p@ss".into(),
        filepath: None,
        ssl: Some(SslConfig {
            mode: "required".into(),
            ca: None,
            cert: None,
            key: None,
        }),
        ssh: None,
        startup_commands: None,
    }
}

fn ssh(enabled: bool) -> SshConfig {
    SshConfig {
        enabled,
        host: "bastion".into(),
        port: 22,
        username: "u".into(),
        auth_method: "password".into(),
        password: None,
        key_path: None,
    }
}

#[test]
fn server_urls_are_not_encoded() {
    let c = config("postgres");
    assert_eq!(connection_url("postgres", &c), "postgres://me:p@ss@db.example:5432/app");
    let pg = PostgresAdapter::new(&c);
    assert_eq!(pg.url, "postgres://me:p@ss@db.example:5432/app");
    assert_eq!(pg.ssl, c.ssl);
    let my = MysqlAdapter::new(&config("mysql"));
    assert_eq!(my.url, "mysql://me:p@ss@db.example:5432/app");
}

#[test]
fn create_picks_engine_or_refuses() {
    assert!(matches!(create(&config("postgres")), Ok(AdapterSettings::Postgres(_))));
    assert!(matches!(create(&config("mysql")), Ok(AdapterSettings::Mysql(_))));
    match create(&config("sqlite")) {
        Ok(AdapterSettings::Sqlite(a)) => assert_eq!(a.path, "app"),
        other => panic!("unexpected {other:?}"),
    }
    assert_eq!(create(&config("oracle")), Err("Unsupported database type: oracle".to_string()));
    assert_eq!(create(&config("Postgres")), Err("Unsupported database type: Postgres".to_string()));
}

#[test]
fn tunnels_only_for_enabled_server_connections() {
    let mut c = config("postgres");
    assert!(!wants_tunnel(&c));
    c.ssh = Some(ssh(false));
    assert!(!wants_tunnel(&c));
    c.ssh = Some(ssh(true));
    assert!(wants_tunnel(&c));
    let mut s = config("sqlite");
    s.ssh = Some(ssh(true));
    assert!(!wants_tunnel(&s));
    let t = through_tunnel(&c, 50123);
    assert_eq!(t.host, "127.0.0.1");
    assert_eq!(t.port, 50123);
    assert_eq!(t.database, "app");
    assert_eq!(t.id, "c1");
}

#[test]
fn startup_commands_split_and_trim() {
    assert_eq!(
        startup_commands("  SET a = 1 \n\n\tSET b = 2\r\n   \nSELECT 3"),
        vec!["SET a = 1", "SET b = 2", "SELECT 3"]
    );
    assert!(startup_commands("").is_empty());
    assert!(startup_commands("\n \n").is_empty());
}

#[test]
fn keyed_table_is_a_map() {
    let mut t: KeyedTable<u32> = KeyedTable::new();
    assert!(!t.contains("a"));
    t.insert("a".into(), 1);
    t.insert("b".into(), 2);
    t.insert("a".into(), 3);
    assert_eq!(t.get("a"), Some(&3));
    assert_eq!(t.get("b"), Some(&2));
    assert_eq!(t.remove("a"), Some(3));
    assert_eq!(t.get("a"), None);
    assert_eq!(t.remove("a"), None);
    assert!(t.contains("b"));
}

#[test]
fn registry_lookup_messages() {
    let mut r: Registry<&str> = Registry::new();
    assert_eq!(r.adapter("x"), Err("No active connection: x".to_string()));
    r.register("x".into(), "adapter-x");
    assert_eq!(r.adapter("x"), Ok(&"adapter-x"));
    assert!(r.is_connected("x"));
    assert_eq!(r.active_adapter(None), Err("No active connection".to_string()));
    assert_eq!(r.active_adapter(Some("x")), Ok(&"adapter-x"));
    assert_eq!(r.unregister("x"), Some("adapter-x"));
    assert!(!r.is_connected("x"));
    assert_eq!(not_connected("y"), "No active connection: y");
    assert_eq!(connection_not_found("y"), "Connection not found: y");
}

#[test]
fn host_connect_and_disconnect() {
    let mut host: Host<u8> = Host::new();
    assert_eq!(host.active_connection_id(), None);
    assert_eq!(host.active_adapter(), Err("No active connection".to_string()));
    host.register("c1".into(), 7);
    host.connected("c1");
    assert_eq!(host.active_connection_id(), Some("c1".to_string()));
    assert_eq!(host.active_adapter(), Ok(&7));
    assert_eq!(host.health_of("c1"), Health::Healthy);
    assert!(host.is_connected("c1"));
    assert_eq!(host.disconnect("c1"), Some(7));
    assert!(!host.is_connected("c1"));
    assert_eq!(host.health_of("c1"), Health::Disconnected);
    assert_eq!(host.active_connection_id(), Some("c1".to_string()));
    assert_eq!(host.active_adapter(), Err("No active connection: c1".to_string()));
    assert_eq!(host.disconnect("c1"), None);
}

#[test]
fn host_health_records_follow_generation() {
    let mut host: Host<u8> = Host::new();
    let first = host.connected("a");
    let second = host.connected("a");
    assert!(!host.record_health("a", first, Health::Degraded));
    assert!(host.record_health("a", second, Health::Degraded));
    assert_eq!(host.health_of("a"), Health::Degraded);
    host.set_active("b");
    assert_eq!(host.active_connection_id(), Some("b".to_string()));
}

#[test]
fn connection_tests() {
    let c = test_config(&config("mysql"));
    assert_eq!(c.id, "test");
    assert_eq!(c.host, "db.example");
    let d = with_database(&config("mysql"), "other");
    assert_eq!(d.database, "other");
    assert_eq!(d.id, "c1");
    let ok = test_result(Ok("PostgreSQL 16".into()));
    assert!(ok.ok);
    assert_eq!(ok.version, Some("PostgreSQL 16".to_string()));
    assert_eq!(ok.error, None);
    let bad = test_result(Err("refused".into()));
    assert!(!bad.ok);
    assert_eq!(bad.version, None);
    assert_eq!(bad.error, Some("refused".to_string()));
}

#[test]
fn connect_steps() {
    let mut host: Host<u8> = Host::new();
    let mut c = config("postgres");
    c.startup_commands = Some(" SET a = 1 \n\nSET b = 2".into());
    assert!(matches!(host.begin_connect(&c), ConnectStep::OpenAdapter(ref x) if *x == c));
    c.ssh = Some(ssh(true));
    match host.begin_connect(&c) {
        ConnectStep::OpenTunnel(s) => assert_eq!(Some(s), c.ssh),
        other => panic!("unexpected {other:?}"),
    }
    assert_eq!(after_tunnel(&c, Err("boom".into())), Err("boom".to_string()));
    let through = after_tunnel(&c, Ok(50001)).unwrap();
    assert_eq!((through.host.as_str(), through.port), ("127.0.0.1", 50001));
    assert_eq!(host.finish_connect("c1".into(), Err("refused".into()), &c.startup_commands), Err("refused".to_string()));
    assert!(!host.is_connected("c1"));
    assert_eq!(
        host.finish_connect("c1".into(), Ok(9), &c.startup_commands),
        Ok(vec!["SET a = 1".to_string(), "SET b = 2".to_string()])
    );
    assert!(host.is_connected("c1"));
    assert!(matches!(host.begin_connect(&c), ConnectStep::AlreadyConnected));
    assert_eq!(host.disconnect("c1"), Some(9));
    assert_eq!(host.disconnect("c1"), None);
    assert!(!host.is_connected("c1"));
}
