use rustfs_core::globals::{
    clear_all_connections, evict_connection, get_global_init_time, get_global_local_node_name,
    get_global_outbound_tls_generation, has_cached_connection, set_global_addr,
    set_global_init_time, set_global_init_time_now, set_global_local_node_name, set_global_mtls_identity,
    set_global_outbound_tls_generation, set_global_root_cert, MtlsIdentityPem, NodeGlobals, UtcTimestamp,
};

#[test]
fn test_set_and_get_local_node_name() {
    let mut globals: NodeGlobals<u32> = NodeGlobals::new();
    set_global_local_node_name(&mut globals, "test-node-1");
    assert_eq!(get_global_local_node_name(&globals), "test-node-1");
}

#[test]
fn test_set_and_get_addr() {
    let mut globals: NodeGlobals<u32> = NodeGlobals::new();
    set_global_addr(&mut globals, "https://node1:9000");
    let addr = globals.rustfs_addr.clone();
    assert_eq!(addr, "https://node1:9000");
}

#[test]
fn test_set_and_get_root_cert() {
    let mut globals: NodeGlobals<u32> = NodeGlobals::new();
    set_global_root_cert(&mut globals, vec![1, 2, 3]);
    let cert = globals.root_cert.clone();
    assert_eq!(cert, Some(vec![1, 2, 3]));
}

#[test]
fn test_mtls_identity() {
    let mut globals: NodeGlobals<u32> = NodeGlobals::new();
    let identity = MtlsIdentityPem {
        cert_pem: b"cert".to_vec(),
        key_pem: b"key".to_vec(),
    };
    set_global_mtls_identity(&mut globals, Some(identity.clone()));
    let stored = globals.mtls_identity.clone();
    assert!(stored.is_some());
    let stored = stored.unwrap();
    assert_eq!(stored.cert_pem, b"cert");
    assert_eq!(stored.key_pem, b"key");

    set_global_mtls_identity(&mut globals, None);
    assert!(globals.mtls_identity.is_none());
}

#[test]
fn test_outbound_tls_generation() {
    let mut globals: NodeGlobals<u32> = NodeGlobals::new();
    set_global_outbound_tls_generation(&mut globals, 42);
    assert_eq!(get_global_outbound_tls_generation(&globals), 42);
    set_global_outbound_tls_generation(&mut globals, 99);
    assert_eq!(get_global_outbound_tls_generation(&globals), 99);
}

#[test]
fn test_connection_cache_evict_and_clear() {
    let mut globals: NodeGlobals<u32> = NodeGlobals::new();
    assert!(!has_cached_connection(&globals, "no-such-addr"));
    assert!(!evict_connection(&mut globals, "no-such-addr"));
    assert_eq!(clear_all_connections(&mut globals), 0);
}

#[test]
fn test_set_and_get_init_time() {
    let mut globals: NodeGlobals<u32> = NodeGlobals::new();
    assert!(get_global_init_time(&globals).is_none());
    set_global_init_time_now(&mut globals);
    let t = get_global_init_time(&globals);
    assert!(t.is_some());
}

#[test]
fn new_globals_hold_the_defaults() {
    let globals: NodeGlobals<u32> = NodeGlobals::new();
    assert_eq!(globals.local_node_name, "");
    assert_eq!(globals.rustfs_host, "");
    assert_eq!(globals.rustfs_port, "9000");
    assert_eq!(globals.rustfs_addr, "");
    assert_eq!(globals.conn_map.len(), 0);
    assert!(globals.root_cert.is_none());
    assert!(globals.mtls_identity.is_none());
    assert_eq!(globals.outbound_tls_generation, 0);
    assert!(globals.init_time.is_none());
}

#[test]
fn evict_removes_only_the_named_connection() {
    let mut globals: NodeGlobals<u32> = NodeGlobals::new();
    globals.conn_map.insert("https://node1:9000".to_string(), 1);
    globals.conn_map.insert("https://node2:9000".to_string(), 2);
    assert!(has_cached_connection(&globals, "https://node1:9000"));
    assert!(evict_connection(&mut globals, "https://node1:9000"));
    assert!(!has_cached_connection(&globals, "https://node1:9000"));
    assert!(has_cached_connection(&globals, "https://node2:9000"));
    assert!(!evict_connection(&mut globals, "https://node1:9000"));
}

#[test]
fn clear_reports_how_many_were_dropped() {
    let mut globals: NodeGlobals<u32> = NodeGlobals::new();
    globals.conn_map.insert("a".to_string(), 1);
    globals.conn_map.insert("b".to_string(), 2);
    globals.conn_map.insert("c".to_string(), 3);
    assert_eq!(clear_all_connections(&mut globals), 3);
    assert!(!has_cached_connection(&globals, "a"));
    assert_eq!(clear_all_connections(&mut globals), 0);
}

#[test]
fn setters_leave_other_settings_alone() {
    let mut globals: NodeGlobals<u32> = NodeGlobals::new();
    set_global_local_node_name(&mut globals, "node-a");
    set_global_outbound_tls_generation(&mut globals, 7);
    set_global_addr(&mut globals, "https://node-a:9000");
    assert_eq!(get_global_local_node_name(&globals), "node-a");
    assert_eq!(get_global_outbound_tls_generation(&globals), 7);
    assert_eq!(globals.rustfs_port, "9000");
}

#[test]
fn init_time_is_a_clock_reading_after_the_epoch() {
    let mut globals: NodeGlobals<u32> = NodeGlobals::new();
    set_global_init_time_now(&mut globals);
    let t = get_global_init_time(&globals).unwrap();
    assert!(t.secs > 1_600_000_000);
    assert!(t.subsec_nanos < 1_000_000_000);
}

#[test]
fn set_init_time_stores_the_given_moment_and_the_latest_wins() {
    let mut globals: NodeGlobals<u32> = NodeGlobals::new();
    let first = UtcTimestamp { secs: 1_700_000_000, subsec_nanos: 5 };
    let second = UtcTimestamp { secs: 1_800_000_000, subsec_nanos: 0 };
    set_global_init_time(&mut globals, first);
    set_global_outbound_tls_generation(&mut globals, 3);
    assert_eq!(get_global_init_time(&globals), Some(first));
    set_global_init_time(&mut globals, second);
    set_global_addr(&mut globals, "https://node9:9000");
    assert_eq!(get_global_init_time(&globals), Some(second));
    assert_eq!(get_global_outbound_tls_generation(&globals), 3);
}
