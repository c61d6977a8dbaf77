//! The metrics store: per-peer connection records, the connection history,
//! the relay address list, and the snapshot operation.

use vstd::prelude::*;

use crate::clock::clock_now_ms;
use crate::model::{
    add_addr_model, clamp_u64, close_model, contains_addr, count_in_window, empty_store,
    establish_model, fresh_conn, has_peer, relay_model, sat_add_u64, snapshot_model,
    sum_bytes_in_window, sum_msgs_in_window, traffic_model, unique_peers,
    wf_store, window_start, with_relayed, with_traffic, lemma_peer_index, lemma_sat_clamp,
    lemma_sum_bytes_nonneg, lemma_sum_msgs_nonneg, ConnView, MetricsView, StoreView, WINDOW_MS,
};

verus! {

/// One currently-open connection, keyed by the remote peer's identity.
pub struct ConnectionMetrics {
    pub peer_id: String,
    /// Milliseconds since the Unix epoch of the latest establishment.
    pub connected_at: u64,
    pub bytes_sent: u64,
    pub bytes_received: u64,
    pub messages_relayed: u64,
}

impl View for ConnectionMetrics {
    type V = ConnView;

    open spec fn view(&self) -> ConnView {
        ConnView {
            peer: self.peer_id@,
            connected_at: self.connected_at,
            bytes_sent: self.bytes_sent,
            bytes_received: self.bytes_received,
            messages_relayed: self.messages_relayed,
        }
    }
}

/// A materialized, point-in-time snapshot of the aggregate metrics.
pub struct RelayMetrics {
    /// Establishments observed in the last 24 hours.
    pub total_connections: u64,
    /// Currently open connections (not windowed).
    pub active_connections: u64,
    pub total_bytes_transferred_24h: u64,
    pub total_messages_relayed_24h: u64,
    pub relay_addresses: Vec<String>,
    /// Milliseconds since the store was created.
    pub uptime: u64,
    pub connections: Vec<ConnectionMetrics>,
}

impl View for RelayMetrics {
    type V = MetricsView;

    open spec fn view(&self) -> MetricsView {
        MetricsView {
            total_connections: self.total_connections,
            active_connections: self.active_connections,
            total_bytes_transferred_24h: self.total_bytes_transferred_24h,
            total_messages_relayed_24h: self.total_messages_relayed_24h,
            relay_addresses: self.relay_addresses@.map_values(|a: String| a@),
            uptime: self.uptime,
            connections: self.connections@.map_values(|c: ConnectionMetrics| c@),
        }
    }
}

/// The event-driven metrics accumulator.
pub struct MetricsCollector {
    connections: Vec<ConnectionMetrics>,
    connection_history: Vec<u64>,
    start_time: u64,
    relay_addresses: Vec<String>,
    peer_id: String,
}

impl View for MetricsCollector {
    type V = StoreView;

    closed spec fn view(&self) -> StoreView {
        StoreView {
            conns: self.connections@.map_values(|c: ConnectionMetrics| c@),
            history: self.connection_history@,
            addrs: self.relay_addresses@.map_values(|a: String| a@),
            start_time: self.start_time,
            peer_id: self.peer_id@,
        }
    }
}

impl MetricsCollector {
    /// One record per peer, and a duplicate-free address list.
    pub open spec fn wf(&self) -> bool {
        wf_store(self@)
    }

    /// An empty store whose start time is the given instant.
    pub fn new_at(peer_id: String, start_time: u64) -> (r: Self)
        ensures
            r@ == empty_store(peer_id@, start_time),
            r.wf(),
    {
        let r = MetricsCollector {
            connections: Vec::new(),
            connection_history: Vec::new(),
            start_time,
            relay_addresses: Vec::new(),
            peer_id,
        };
        proof {
            assert(r@ =~= empty_store(r.peer_id@, start_time));
        }
        r
    }

    /// An empty store whose start time is read from the system clock.
    pub fn new(peer_id: String) -> (r: Self)
        ensures
            r.wf(),
            exists|t: u64| r@ == empty_store(peer_id@, t),
    {
        let t = clock_now_ms();
        let r = Self::new_at(peer_id, t);
        proof {
            assert(r@ == empty_store(peer_id@, t));
        }
        r
    }

    /// The identity of the local relay node.
    pub fn get_peer_id(&self) -> (r: String)
        ensures
            r@ == self@.peer_id,
    {
        self.peer_id.clone()
    }

    /// Append `address` to the relay address list unless already present.
    pub fn add_relay_address(&mut self, address: String)
        requires
            old(self).wf(),
        ensures
            final(self).wf(),
            final(self)@ == add_addr_model(old(self)@, address@),
    {
        let ghost s0 = self@;
        let n = self.relay_addresses.len();
        let mut i: usize = 0;
        while i < n
            invariant
                self@ == s0,
                old(self).wf(),
                n == self.relay_addresses@.len(),
                0 <= i <= n,
                forall|j: int| 0 <= j < i ==> self.relay_addresses@[j]@ != address@,
            decreases n - i,
        {
            if self.relay_addresses[i] == address {
                proof {
                    assert(s0.addrs[i as int] == address@);
                    assert(contains_addr(s0.addrs, address@));
                    assert(self@ =~= add_addr_model(s0, address@));
                }
                return ;
            }
            i = i + 1;
        }
        proof {
            assert(forall|j: int|
                0 <= j < s0.addrs.len() ==> s0.addrs[j] == self.relay_addresses@[j]@);
            assert(!contains_addr(s0.addrs, address@));
        }
        self.relay_addresses.push(address);
        proof {
            assert(self@.addrs =~= s0.addrs.push(address@));
            assert(self@ =~= add_addr_model(s0, address@));
        }
    }

    /// The index of the record for `peer_id`, if one exists.
    fn find_peer(&self, peer_id: &String) -> (r: Option<usize>)
        ensures
            match r {
                Some(i) => i < self@.conns.len() && self@.conns[i as int].peer == peer_id@,
                None => !has_peer(self@.conns, peer_id@),
            },
    {
        let n = self.connections.len();
        let mut i: usize = 0;
        while i < n
            invariant
                n == self.connections@.len(),
                0 <= i <= n,
                forall|j: int| 0 <= j < i ==> self@.conns[j].peer != peer_id@,
            decreases n - i,
        {
            if self.connections[i].peer_id == *peer_id {
                return Some(i);
            }
            i = i + 1;
        }
        None
    }

    /// Insert or overwrite the record for `peer_id` with a fresh one whose
    /// establishment time is `now`, and append `now` to the history.
    pub fn connection_established_at(&mut self, peer_id: String, now: u64)
        requires
            old(self).wf(),
        ensures
            final(self).wf(),
            final(self)@ == establish_model(old(self)@, peer_id@, now),
    {
        let ghost s0 = self@;
        let found = self.find_peer(&peer_id);
        let rec = ConnectionMetrics {
            peer_id,
            connected_at: now,
            bytes_sent: 0,
            bytes_received: 0,
            messages_relayed: 0,
        };
        let ghost p = rec.peer_id@;
        match found {
            Some(i) => {
                proof {
                    lemma_peer_index(s0.conns, p, i as int);
                }
                self.connections[i] = rec;
                proof {
                    assert(self@.conns =~= s0.conns.update(i as int, fresh_conn(p, now)));
                }
            },
            None => {
                self.connections.push(rec);
                proof {
                    assert(self@.conns =~= s0.conns.push(fresh_conn(p, now)));
                }
            },
        }
        self.connection_history.push(now);
        proof {
            assert(self@ =~= establish_model(s0, p, now));
            assert(forall|j: int|
                0 <= j < self@.conns.len() ==> #[trigger] self@.conns[j].peer == (if j
                    < s0.conns.len() {
                    s0.conns[j].peer
                } else {
                    p
                }));
            assert(unique_peers(self@.conns));
        }
    }

    /// Establish `peer_id` at the instant read from the system clock.
    pub fn connection_established(&mut self, peer_id: String)
        requires
            old(self).wf(),
        ensures
            final(self).wf(),
            exists|now: u64| final(self)@ == establish_model(old(self)@, peer_id@, now),
    {
        let now = clock_now_ms();
        self.connection_established_at(peer_id, now);
    }

    /// Drop the record for `peer_id` if present; no-op otherwise.
    pub fn connection_closed(&mut self, peer_id: &String)
        requires
            old(self).wf(),
        ensures
            final(self).wf(),
            final(self)@ == close_model(old(self)@, peer_id@),
    {
        let ghost s0 = self@;
        if let Some(i) = self.find_peer(peer_id) {
            proof {
                lemma_peer_index(s0.conns, peer_id@, i as int);
            }
            self.connections.remove(i);
            proof {
                assert(self@.conns =~= s0.conns.remove(i as int));
                assert(self@ =~= close_model(s0, peer_id@));
            }
        }
    }

    /// Add to the byte counters of `peer_id`'s record, saturating at
    /// `u64::MAX`; traffic for a peer with no record is discarded.
    pub fn bytes_transferred(&mut self, peer_id: &String, sent: u64, received: u64)
        requires
            old(self).wf(),
        ensures
            final(self).wf(),
            final(self)@ == traffic_model(old(self)@, peer_id@, sent, received),
    {
        let ghost s0 = self@;
        if let Some(i) = self.find_peer(peer_id) {
            proof {
                lemma_peer_index(s0.conns, peer_id@, i as int);
            }
            let c = &mut self.connections[i];
            c.bytes_sent = sat_add(c.bytes_sent, sent);
            c.bytes_received = sat_add(c.bytes_received, received);
            proof {
                assert(self@.conns =~= s0.conns.update(
                    i as int,
                    with_traffic(s0.conns[i as int], sent, received),
                ));
                assert(self@ =~= traffic_model(s0, peer_id@, sent, received));
            }
        }
    }

    /// Bump the relay counter of `peer_id`'s record, saturating at
    /// `u64::MAX`; a relay for a peer with no record is discarded.
    pub fn message_relayed(&mut self, peer_id: &String)
        requires
            old(self).wf(),
        ensures
            final(self).wf(),
            final(self)@ == relay_model(old(self)@, peer_id@),
    {
        let ghost s0 = self@;
        if let Some(i) = self.find_peer(peer_id) {
            proof {
                lemma_peer_index(s0.conns, peer_id@, i as int);
            }
            let c = &mut self.connections[i];
            c.messages_relayed = sat_add(c.messages_relayed, 1);
            proof {
                assert(self@.conns =~= s0.conns.update(
                    i as int,
                    with_relayed(s0.conns[i as int]),
                ));
                assert(self@ =~= relay_model(s0, peer_id@));
            }
        }
    }
}

impl MetricsCollector {
    /// Materialize the snapshot for the instant `now`: windowed totals over
    /// history entries and records with `connected_at >= now - 24h`
    /// (saturating at `u64::MAX`), the instantaneous active count, a copy of
    /// the address list and of every active record, and the uptime.
    pub fn get_metrics_at(&self, now: u64) -> (r: RelayMetrics)
        requires
            self.wf(),
        ensures
            r@ == snapshot_model(self@, now),
    {
        let ws = if now >= WINDOW_MS {
            now - WINDOW_MS
        } else {
            0
        };
        proof {
            assert(ws == window_start(now));
        }
        let hn = self.connection_history.len();
        let mut total_connections: u64 = 0;
        let mut i: usize = 0;
        while i < hn
            invariant
                hn == self.connection_history@.len(),
                0 <= i <= hn,
                ws == window_start(now),
                total_connections <= i,
                total_connections == count_in_window(
                    self.connection_history@.take(i as int),
                    ws,
                ),
            decreases hn - i,
        {
            let ghost pre = self.connection_history@.take(i as int);
            if self.connection_history[i] >= ws {
                total_connections = total_connections + 1;
            }
            i = i + 1;
            proof {
                let post = self.connection_history@.take(i as int);
                assert(post.drop_last() =~= pre);
                assert(post.last() == self.connection_history@[i - 1]);
            }
        }
        proof {
            assert(self.connection_history@.take(hn as int) =~= self@.history);
        }
        let cn = self.connections.len();
        let mut total_bytes: u64 = 0;
        let mut total_msgs: u64 = 0;
        let mut conns: Vec<ConnectionMetrics> = Vec::new();
        i = 0;
        while i < cn
            invariant
                cn == self.connections@.len(),
                0 <= i <= cn,
                ws == window_start(now),
                total_bytes == clamp_u64(sum_bytes_in_window(self@.conns.take(i as int), ws)),
                total_msgs == clamp_u64(sum_msgs_in_window(self@.conns.take(i as int), ws)),
                conns@.map_values(|c: ConnectionMetrics| c@) == self@.conns.take(i as int),
            decreases cn - i,
        {
            let ghost pre = self@.conns.take(i as int);
            let ghost sb = sum_bytes_in_window(pre, ws);
            let ghost sm = sum_msgs_in_window(pre, ws);
            let c = &self.connections[i];
            if c.connected_at >= ws {
                proof {
                    lemma_sum_bytes_nonneg(pre, ws);
                    lemma_sum_msgs_nonneg(pre, ws);
                    lemma_sat_clamp(sb, c.bytes_sent);
                    lemma_sat_clamp(sb + c.bytes_sent, c.bytes_received);
                    lemma_sat_clamp(sm, c.messages_relayed);
                }
                total_bytes = sat_add(sat_add(total_bytes, c.bytes_sent), c.bytes_received);
                total_msgs = sat_add(total_msgs, c.messages_relayed);
            }
            conns.push(
                ConnectionMetrics {
                    peer_id: c.peer_id.clone(),
                    connected_at: c.connected_at,
                    bytes_sent: c.bytes_sent,
                    bytes_received: c.bytes_received,
                    messages_relayed: c.messages_relayed,
                },
            );
            i = i + 1;
            proof {
                let post = self@.conns.take(i as int);
                assert(post.drop_last() =~= pre);
                assert(post.last() == self@.conns[i - 1]);
                assert(conns@.map_values(|c: ConnectionMetrics| c@) =~= post);
            }
        }
        let an = self.relay_addresses.len();
        let mut addrs: Vec<String> = Vec::new();
        i = 0;
        while i < an
            invariant
                an == self.relay_addresses@.len(),
                0 <= i <= an,
                addrs@.map_values(|a: String| a@) == self@.addrs.take(i as int),
            decreases an - i,
        {
            let a = self.relay_addresses[i].clone();
            proof {
                assert(a@ == self@.addrs[i as int]);
            }
            addrs.push(a);
            i = i + 1;
            proof {
                assert(self@.addrs.take(i as int).drop_last() =~= self@.addrs.take(i - 1));
                assert(self@.addrs.take(i as int).last() == self@.addrs[i - 1]);
                assert(addrs@.map_values(|a: String| a@) =~= self@.addrs.take(i as int));
            }
        }
        let uptime = if now >= self.start_time {
            now - self.start_time
        } else {
            0
        };
        let r = RelayMetrics {
            total_connections,
            active_connections: self.connections.len() as u64,
            total_bytes_transferred_24h: total_bytes,
            total_messages_relayed_24h: total_msgs,
            relay_addresses: addrs,
            uptime,
            connections: conns,
        };
        proof {
            assert(self@.conns.take(cn as int) =~= self@.conns);
            assert(self@.addrs.take(an as int) =~= self@.addrs);
            assert(r@ =~= snapshot_model(self@, now));
        }
        r
    }

    /// Materialize the snapshot for the instant read from the system clock.
    pub fn get_metrics(&self) -> (r: RelayMetrics)
        requires
            self.wf(),
        ensures
            exists|now: u64| r@ == snapshot_model(self@, now),
    {
        let now = clock_now_ms();
        let r = self.get_metrics_at(now);
        proof {
            assert(r@ == snapshot_model(self@, now));
        }
        r
    }
}

/// `u64` addition that stops at `u64::MAX` instead of overflowing.
pub fn sat_add(a: u64, b: u64) -> (r: u64)
    ensures
        r == sat_add_u64(a, b),
{
    if a > u64::MAX - b {
        u64::MAX
    } else {
        a + b
    }
}

} // verus!
