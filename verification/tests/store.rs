use relay_metrics::metrics::MetricsCollector;

const HOUR_MS: u64 = 60 * 60 * 1000;

#[test]
fn establish_then_snapshot_single_record() {
    let mut m = MetricsCollector::new_at("me".to_string(), 0);
    m.connection_established_at("A".to_string(), 100);
    let snap = m.get_metrics_at(200);
    assert_eq!(snap.active_connections, 1);
    assert_eq!(snap.total_connections, 1);
    assert_eq!(snap.connections.len(), 1);
    assert_eq!(snap.connections[0].peer_id, "A");
    assert_eq!(snap.connections[0].connected_at, 100);
    assert_eq!(snap.connections[0].bytes_sent, 0);
    assert_eq!(snap.connections[0].bytes_received, 0);
    assert_eq!(snap.connections[0].messages_relayed, 0);
}

#[test]
fn reestablish_resets_counters() {
    let mut m = MetricsCollector::new_at("me".to_string(), 0);
    m.connection_established_at("A".to_string(), 100);
    m.bytes_transferred(&"A".to_string(), 10, 20);
    m.message_relayed(&"A".to_string());
    m.connection_established_at("A".to_string(), 300);
    let snap = m.get_metrics_at(400);
    assert_eq!(snap.active_connections, 1);
    assert_eq!(snap.total_connections, 2);
    assert_eq!(snap.connections.len(), 1);
    assert_eq!(snap.connections[0].connected_at, 300);
    assert_eq!(snap.connections[0].bytes_sent, 0);
    assert_eq!(snap.connections[0].bytes_received, 0);
    assert_eq!(snap.connections[0].messages_relayed, 0);
}

#[test]
fn traffic_for_unknown_peer_discarded() {
    let mut m = MetricsCollector::new_at("me".to_string(), 0);
    m.bytes_transferred(&"X".to_string(), 10, 20);
    m.message_relayed(&"X".to_string());
    let snap = m.get_metrics_at(100);
    assert_eq!(snap.active_connections, 0);
    assert_eq!(snap.total_connections, 0);
    assert_eq!(snap.total_bytes_transferred_24h, 0);
    assert_eq!(snap.total_messages_relayed_24h, 0);
    assert!(snap.connections.is_empty());
}

#[test]
fn add_relay_address_idempotent() {
    let mut m = MetricsCollector::new_at("me".to_string(), 0);
    m.add_relay_address("/ip4/1.2.3.4/tcp/3000/ws".to_string());
    m.add_relay_address("/ip4/1.2.3.4/tcp/3000/ws".to_string());
    let snap = m.get_metrics_at(100);
    assert_eq!(snap.relay_addresses, vec!["/ip4/1.2.3.4/tcp/3000/ws".to_string()]);
}

#[test]
fn relay_addresses_keep_insertion_order() {
    let mut m = MetricsCollector::new_at("me".to_string(), 0);
    m.add_relay_address("b".to_string());
    m.add_relay_address("a".to_string());
    m.add_relay_address("b".to_string());
    let snap = m.get_metrics_at(100);
    assert_eq!(snap.relay_addresses, vec!["b".to_string(), "a".to_string()]);
}

#[test]
fn stale_connection_excluded_from_window() {
    let mut m = MetricsCollector::new_at("me".to_string(), 0);
    m.connection_established_at("A".to_string(), 1000);
    m.bytes_transferred(&"A".to_string(), 2048, 1024);
    m.message_relayed(&"A".to_string());
    let now = 1000 + 25 * HOUR_MS;
    let snap = m.get_metrics_at(now);
    // Still active and still listed, counters intact...
    assert_eq!(snap.active_connections, 1);
    assert_eq!(snap.connections.len(), 1);
    assert_eq!(snap.connections[0].bytes_sent, 2048);
    assert_eq!(snap.connections[0].bytes_received, 1024);
    assert_eq!(snap.connections[0].messages_relayed, 1);
    // ...but 25 hours old, so absent from every 24h aggregate.
    assert_eq!(snap.total_bytes_transferred_24h, 0);
    assert_eq!(snap.total_messages_relayed_24h, 0);
    assert_eq!(snap.total_connections, 0);
}

#[test]
fn window_boundary_is_inclusive() {
    let mut m = MetricsCollector::new_at("me".to_string(), 0);
    let t0 = 10 * HOUR_MS;
    m.connection_established_at("A".to_string(), t0);
    m.bytes_transferred(&"A".to_string(), 5, 7);
    let snap = m.get_metrics_at(t0 + 24 * HOUR_MS);
    assert_eq!(snap.total_connections, 1);
    assert_eq!(snap.total_bytes_transferred_24h, 12);
    let snap_after = m.get_metrics_at(t0 + 24 * HOUR_MS + 1);
    assert_eq!(snap_after.total_connections, 0);
    assert_eq!(snap_after.total_bytes_transferred_24h, 0);
}

#[test]
fn end_to_end_traffic_scenario() {
    let mut m = MetricsCollector::new_at("me".to_string(), 0);
    m.connection_established_at("A".to_string(), 100);
    m.message_relayed(&"A".to_string());
    m.message_relayed(&"A".to_string());
    m.message_relayed(&"A".to_string());
    m.bytes_transferred(&"A".to_string(), 2048, 1024);
    let snap = m.get_metrics_at(200);
    assert_eq!(snap.active_connections, 1);
    assert_eq!(snap.connections[0].messages_relayed, 3);
    assert_eq!(snap.connections[0].bytes_sent, 2048);
    assert_eq!(snap.connections[0].bytes_received, 1024);
    assert_eq!(snap.total_messages_relayed_24h, 3);
    assert_eq!(snap.total_bytes_transferred_24h, 3072);
}

#[test]
fn close_retains_history() {
    let mut m = MetricsCollector::new_at("me".to_string(), 0);
    m.connection_established_at("B".to_string(), 100);
    m.connection_closed(&"B".to_string());
    let snap = m.get_metrics_at(200);
    assert_eq!(snap.active_connections, 0);
    assert!(snap.connections.is_empty());
    assert_eq!(snap.total_connections, 1);
}

#[test]
fn close_unknown_peer_is_noop() {
    let mut m = MetricsCollector::new_at("me".to_string(), 0);
    m.connection_established_at("A".to_string(), 100);
    m.connection_closed(&"B".to_string());
    let snap = m.get_metrics_at(200);
    assert_eq!(snap.active_connections, 1);
}

#[test]
fn counters_saturate_instead_of_overflowing() {
    let mut m = MetricsCollector::new_at("me".to_string(), 0);
    m.connection_established_at("A".to_string(), 100);
    m.bytes_transferred(&"A".to_string(), u64::MAX, 1);
    m.bytes_transferred(&"A".to_string(), 5, u64::MAX);
    let snap = m.get_metrics_at(200);
    assert_eq!(snap.connections[0].bytes_sent, u64::MAX);
    assert_eq!(snap.connections[0].bytes_received, u64::MAX);
    assert_eq!(snap.total_bytes_transferred_24h, u64::MAX);
}

#[test]
fn uptime_measures_from_start_time() {
    let m = MetricsCollector::new_at("me".to_string(), 1000);
    assert_eq!(m.get_metrics_at(2500).uptime, 1500);
    assert_eq!(m.get_metrics_at(500).uptime, 0);
}

#[test]
fn get_peer_id_returns_own_identity() {
    let m = MetricsCollector::new_at("12D3KooW".to_string(), 0);
    assert_eq!(m.get_peer_id(), "12D3KooW");
}

#[test]
fn multiple_peers_aggregate() {
    let mut m = MetricsCollector::new_at("me".to_string(), 0);
    m.connection_established_at("A".to_string(), 100);
    m.connection_established_at("B".to_string(), 150);
    m.bytes_transferred(&"A".to_string(), 100, 50);
    m.bytes_transferred(&"B".to_string(), 10, 5);
    m.message_relayed(&"B".to_string());
    let snap = m.get_metrics_at(200);
    assert_eq!(snap.active_connections, 2);
    assert_eq!(snap.total_connections, 2);
    assert_eq!(snap.total_bytes_transferred_24h, 165);
    assert_eq!(snap.total_messages_relayed_24h, 1);
}

#[test]
fn interleaved_mutations_keep_snapshots_consistent() {
    let mut m = MetricsCollector::new_at("me".to_string(), 0);
    let mut t: u64 = 1;
    for round in 0..50u64 {
        let peer = format!("peer-{}", round % 7);
        m.connection_established_at(peer.clone(), t);
        m.bytes_transferred(&peer, round * 3, round * 5);
        if round % 3 == 0 {
            m.message_relayed(&peer);
        }
        if round % 4 == 0 {
            m.connection_closed(&peer);
        }
        let snap = m.get_metrics_at(t + 1);
        assert_eq!(snap.active_connections as usize, snap.connections.len());
        assert_eq!(snap.total_connections, round + 1);
        t += 10;
    }
}

#[test]
fn real_clock_smoke() {
    let mut m = MetricsCollector::new("me".to_string());
    m.connection_established("A".to_string());
    m.bytes_transferred(&"A".to_string(), 2048, 1024);
    let snap = m.get_metrics();
    assert_eq!(snap.active_connections, 1);
    assert_eq!(snap.connections[0].bytes_sent, 2048);
    assert_eq!(snap.connections[0].bytes_received, 1024);
    assert_eq!(snap.total_connections, 1);
}
