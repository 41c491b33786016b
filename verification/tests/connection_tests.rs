use aios_surreal::connection_manager::{ConnectStep, ConnectionConfig, SurrealConnectionManager};

fn cfg(host: &str, ns: &str, db: &str) -> ConnectionConfig {
    ConnectionConfig::new(
        host.to_string(),
        ns.to_string(),
        db.to_string(),
        "root".to_string(),
        "root".to_string(),
    )
}

#[test]
fn config_changes_are_classified() {
    let a = cfg("ws://a:8000", "n1", "d1");
    assert!(cfg("ws://b:8000", "n1", "d1").needs_reconnect(&a));
    assert!(!cfg("ws://b:8000", "n1", "d1").needs_switch(&a));
    assert!(cfg("ws://a:8000", "n2", "d1").needs_switch(&a));
    assert!(cfg("ws://a:8000", "n1", "d2").needs_switch(&a));
    assert!(!cfg("ws://a:8000", "n1", "d1").needs_switch(&a));
    assert!(!cfg("ws://a:8000", "n1", "d1").needs_reconnect(&a));
}

#[test]
fn connection_life_cycle() {
    let mut m = SurrealConnectionManager::new();
    assert!(m.is_disconnected());
    assert_eq!(m.current_host(), None);
    let first = cfg("ws://a:8000", "n1", "d1");
    assert_eq!(m.plan_connect(&first), ConnectStep::Connect);
    m.finish(first, true);
    assert_eq!(m.current_host(), Some("ws://a:8000".to_string()));
    assert_eq!(m.plan_connect(&cfg("ws://a:8000", "n1", "d1")), ConnectStep::Unchanged);
    assert_eq!(m.plan_connect(&cfg("ws://a:8000", "n2", "d1")), ConnectStep::SwitchNsDb);
    assert_eq!(m.plan_connect(&cfg("ws://b:8000", "n1", "d1")), ConnectStep::ProbeOldConnection);
    assert_eq!(SurrealConnectionManager::after_probe(true), ConnectStep::SwitchNsDb);
    assert_eq!(SurrealConnectionManager::after_probe(false), ConnectStep::Connect);
    m.finish(cfg("ws://b:8000", "n1", "d1"), false);
    assert_eq!(m.current_host(), Some("ws://a:8000".to_string()));
    m.finish(cfg("ws://b:8000", "n1", "d1"), true);
    assert_eq!(m.current_host(), Some("ws://b:8000".to_string()));
    m.mark_disconnected();
    assert!(m.is_disconnected());
    assert_eq!(m.plan_connect(&cfg("ws://b:8000", "n1", "d1")), ConnectStep::Connect);
}

#[test]
fn duplicated_configs_match() {
    let a = cfg("h", "n", "d");
    let b = a.duplicate();
    assert_eq!(b.host, "h");
    assert_eq!(b.namespace, "n");
    assert_eq!(b.database, "d");
    assert_eq!(b.username, "root");
    assert_eq!(b.password, "root");
}

#[test]
fn failed_connect_keeps_state_and_success_sets_host() {
    let mut m = SurrealConnectionManager::new();
    let a = cfg("ws://a:8000", "n1", "d1");
    assert_eq!(m.plan_connect(&a), ConnectStep::Connect);
    m.finish(a.duplicate(), false);
    assert!(m.is_disconnected());
    m.finish(a.duplicate(), true);
    assert_eq!(m.current_host(), Some("ws://a:8000".to_string()));
    let b = cfg("ws://b:8000", "n1", "d1");
    assert_eq!(m.plan_connect(&b), ConnectStep::ProbeOldConnection);
    assert_eq!(SurrealConnectionManager::after_probe(true), ConnectStep::SwitchNsDb);
    m.finish(b.duplicate(), false);
    assert_eq!(m.current_host(), Some("ws://a:8000".to_string()));
    let same = ConnectionConfig::new(
        "ws://a:8000".to_string(),
        "n1".to_string(),
        "d1".to_string(),
        "other".to_string(),
        "secret".to_string(),
    );
    assert_eq!(m.plan_connect(&same), ConnectStep::Unchanged);
}
