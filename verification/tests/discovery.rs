use ogurpchik::discovery::{
    check_server_setup, default_kv, host_key, reg_exe, service_key, RegistryKv, Scope,
    ServerSetupError, TmpfsKv, Topology, TopologyCollector, TopologyError,
};
use std::collections::HashMap;

#[test]
fn keys_follow_the_registry_layout() {
    assert_eq!(service_key("foo"), "Services\\foo");
    assert_eq!(host_key("vm1"), "Hosts\\vm1");
    assert_eq!(default_kv().base(), "HKCU\\Software\\Ogurpchik");
    assert_eq!(default_kv().full_path("Services\\foo"), "HKCU\\Software\\Ogurpchik\\Services\\foo");
    assert_eq!(RegistryKv::from_base("HKCU\\X".to_string()).full_path("k"), "HKCU\\X\\k");
    assert_eq!(reg_exe(true), "/mnt/c/Windows/System32/reg.exe");
    assert_eq!(reg_exe(false), "reg.exe");
    assert_eq!(Scope::default(), Scope::Shared);
}

#[test]
fn tmpfs_keys_become_nested_files() {
    let kv = TmpfsKv::in_runtime_dir("/run/user/1000");
    assert_eq!(kv.base(), "/run/user/1000/ogurpchik");
    assert_eq!(kv.full_path("Services\\svc\\endpoint"), "/run/user/1000/ogurpchik/Services/svc/endpoint");
    assert_eq!(kv.full_path("a\\b\\c\\d"), "/run/user/1000/ogurpchik/a/b/c/d");
    assert_eq!(TmpfsKv::at("/tmp/t/".to_string()).full_path("x"), "/tmp/t/x");
}

#[test]
fn topology_is_delivered_once_when_all_cores_registered() {
    let mut c = TopologyCollector::new("tcp".to_string(), "json".to_string());
    c.init_cores(2);
    assert!(c.register(1, "127.0.0.1:9001".to_string()).is_none());
    let t = c.register(0, "127.0.0.1:9000".to_string()).expect("complete");
    assert_eq!(t.transport_kind, "tcp");
    assert_eq!(t.codec_kind, "json");
    assert_eq!(t.map.len(), 2);
    assert_eq!(t.map.get(&0).map(|s| s.as_str()), Some("127.0.0.1:9000"));
    assert!(c.register(0, "127.0.0.1:9002".to_string()).is_none());
    let fresh = c.fresh_copy();
    assert_eq!(fresh.transport_name(), "tcp");
    assert_eq!(fresh.codec_name(), "json");
}

fn topology(entries: &[(usize, &str)]) -> Topology {
    let mut map = HashMap::new();
    for (k, v) in entries {
        map.insert(*k, v.to_string());
    }
    Topology { transport_kind: "tcp".to_string(), codec_kind: "json".to_string(), map }
}

#[test]
fn client_checks_the_topology_before_connecting() {
    let t = topology(&[(0, "a"), (1, "b")]);
    assert_eq!(t.connector_endpoints("tcp", "json"), Ok(vec!["a".to_string(), "b".to_string()]));
    assert_eq!(t.connector_endpoints("uds", "json"), Err(TopologyError::TransportMismatch));
    assert_eq!(t.connector_endpoints("tcp", "rkyv"), Err(TopologyError::CodecMismatch));
    let gap = topology(&[(0, "a"), (2, "c")]);
    assert_eq!(gap.connector_endpoints("tcp", "json"), Err(TopologyError::MissingCore { core: 1 }));
    let empty = Topology::default();
    assert_eq!(empty.connector_endpoints("", ""), Ok(vec![]));
}

#[test]
fn server_setup_checks_in_order() {
    let reg = TopologyCollector::new("tcp".to_string(), "json".to_string());
    assert_eq!(check_server_setup(None, Some(&reg), "json"), Err(ServerSetupError::TransportNotSet));
    assert_eq!(check_server_setup(Some("tcp"), None, "json"), Err(ServerSetupError::RegistryNotSet));
    assert_eq!(check_server_setup(Some("uds"), Some(&reg), "json"), Err(ServerSetupError::RegistryTransportMismatch));
    assert_eq!(check_server_setup(Some("tcp"), Some(&reg), "rkyv"), Err(ServerSetupError::RegistryCodecMismatch));
    assert_eq!(check_server_setup(Some("tcp"), Some(&reg), "json"), Ok(()));
}

#[test]
fn per_core_lookup_keeps_the_core_order() {
    let t = topology(&[(0, "a"), (2, "c")]);
    assert_eq!(t.check_kinds("tcp", "json"), Ok(()));
    assert_eq!(t.check_kinds("tcp", "rkyv"), Err(TopologyError::CodecMismatch));
    assert_eq!(t.core_endpoint(0), Ok("a".to_string()));
    assert_eq!(t.core_endpoint(1), Err(TopologyError::MissingCore { core: 1 }));
}

#[test]
fn topology_is_handed_out_once_over_many_registrations() {
    let mut c = TopologyCollector::new("tcp".to_string(), "json".to_string());
    c.init_cores(2);
    let mut handed = 0;
    for (core, ep) in [(0, "a"), (0, "a2"), (1, "b"), (1, "b2"), (2, "c")] {
        if c.register(core, ep.to_string()).is_some() {
            handed += 1;
        }
    }
    assert_eq!(handed, 1);
}
