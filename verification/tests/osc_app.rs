use senseshift::osc_app::{
    generate_runtime_config, generate_runtime_config_with_ids, AppConfig, OscRuntimeConfig,
    OscServerModuleConfig, OscServerModuleInstanceConfig, ServerAction, ServerNotFound,
};
use senseshift::osc_app::server_name;
use senseshift::text::decimal_string;
use std::collections::HashMap;

fn module(enabled: bool, servers: &[(bool, &str)]) -> OscServerModuleConfig<String> {
    OscServerModuleConfig {
        enabled,
        servers: servers
            .iter()
            .map(|(e, c)| OscServerModuleInstanceConfig { enabled: *e, server: c.to_string() })
            .collect(),
    }
}

#[test]
fn runtime_config_with_ids() {
    let r = generate_runtime_config_with_ids(module(true, &[(true, "a"), (false, "b")]), &vec![7, 9]);
    assert!(r.osc_enabled);
    assert_eq!(r.osc_servers.len(), 2);
    let a = &r.osc_servers[&7];
    assert_eq!(a.id, 7);
    assert_eq!(a.name, "OSC Server 1");
    assert!(a.enabled);
    assert_eq!(a.config, "a");
    let b = &r.osc_servers[&9];
    assert_eq!(b.name, "OSC Server 2");
    assert!(!b.enabled);
    assert_eq!(b.config, "b");
}

#[test]
fn runtime_config_names_count_past_nine() {
    let servers: Vec<(bool, &str)> = (0..12).map(|_| (false, "x")).collect();
    let ids: Vec<u128> = (100..112).collect();
    let r = generate_runtime_config_with_ids(module(false, &servers), &ids);
    assert_eq!(r.osc_servers[&111].name, "OSC Server 12");
    assert!(!r.osc_enabled);
}

#[test]
fn runtime_config_with_random_ids() {
    let r = generate_runtime_config(module(false, &[(true, "a"), (true, "b"), (false, "c")]));
    assert_eq!(r.osc_servers.len(), 3);
    let mut names: Vec<&str> = r.osc_servers.values().map(|s| s.name.as_str()).collect();
    names.sort();
    assert_eq!(names, vec!["OSC Server 1", "OSC Server 2", "OSC Server 3"]);
    for (id, s) in &r.osc_servers {
        assert_eq!(*id, s.id);
    }
}

#[test]
fn default_runtime_config() {
    let r: OscRuntimeConfig<String> = OscRuntimeConfig::default();
    assert!(!r.osc_enabled);
    assert!(r.osc_servers.is_empty());
}

#[test]
fn switching_servers() {
    let mut r = generate_runtime_config_with_ids(module(true, &[(false, "a")]), &vec![1]);
    assert_eq!(r.set_server_enabled(1, true), Ok(ServerAction::Start));
    assert!(r.osc_servers[&1].enabled);
    assert_eq!(r.set_server_enabled(1, false), Ok(ServerAction::Stop));
    assert!(!r.osc_servers[&1].enabled);
    assert_eq!(r.set_server_enabled(2, true), Err(ServerNotFound { id: 2 }));
    r.osc_enabled = false;
    assert_eq!(r.set_server_enabled(1, true), Ok(ServerAction::Stop));
    assert!(r.osc_servers[&1].enabled);
}

#[test]
fn app_config_servers() {
    let mut app: AppConfig<String> = AppConfig { osc_enabled: false, osc_servers: HashMap::new() };
    let id = app.add_osc_server("Default Server".to_string(), "cfg".to_string());
    assert_eq!(app.osc_servers.len(), 1);
    let s = app.get_osc_server(&id).unwrap();
    assert_eq!(s.id, id);
    assert_eq!(s.name, "Default Server");
    assert!(!s.enabled);
    assert_eq!(app.toggle_osc_server(&id), Some(true));
    assert_eq!(app.toggle_osc_server(&id), Some(false));
    assert_eq!(app.toggle_osc_server(&id.wrapping_add(1)), None);
    assert!(app.get_osc_server(&id.wrapping_add(1)).is_none());
    let removed = app.remove_osc_server(&id).unwrap();
    assert_eq!(removed.config, "cfg");
    assert!(app.remove_osc_server(&id).is_none());
    assert!(app.osc_servers.is_empty());
}

#[test]
fn global_switch() {
    let mut r = generate_runtime_config_with_ids(
        module(false, &[(true, "a"), (false, "b"), (true, "c")]),
        &vec![10, 20, 30],
    );
    let (action, mut ids) = r.set_osc_enabled(true);
    assert!(r.osc_enabled);
    assert_eq!(action, ServerAction::Start);
    ids.sort();
    assert_eq!(ids, vec![10, 30]);

    let (action, mut ids) = r.set_osc_enabled(false);
    assert!(!r.osc_enabled);
    assert_eq!(action, ServerAction::Stop);
    ids.sort();
    assert_eq!(ids, vec![10, 20, 30]);
    assert_eq!(r.osc_servers.len(), 3);
}

#[test]
fn toggling_twice_restores() {
    let mut app: AppConfig<u8> = AppConfig { osc_enabled: true, osc_servers: HashMap::new() };
    let id = app.add_osc_server("s".to_string(), 1);
    let before = app.get_osc_server(&id).unwrap().enabled;
    app.toggle_osc_server(&id);
    app.toggle_osc_server(&id);
    assert_eq!(app.get_osc_server(&id).unwrap().enabled, before);
    assert!(app.osc_enabled);
}

#[test]
fn server_names_count_in_decimal() {
    assert_eq!(server_name(1), "OSC Server 1");
    assert_eq!(server_name(12), "OSC Server 12");
    assert_eq!(decimal_string(0), "0");
    assert_eq!(decimal_string(907), "907");
    assert_eq!(decimal_string(u64::MAX), u64::MAX.to_string());
}
