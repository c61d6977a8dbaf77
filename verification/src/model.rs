//! Mathematical model of the metrics store.
//!
//! Every executable operation of the store is specified as a pure function
//! over these ghost values; the executable code's contracts equate the new
//! state of the store with the corresponding model function.

use vstd::prelude::*;

verus! {

/// Length of the rolling aggregation window, in milliseconds: 24 hours.
pub const WINDOW_MS: u64 = 24 * 60 * 60 * 1000;

/// Model of one active connection record.
#[verifier::ext_equal]
pub ghost struct ConnView {
    pub peer: Seq<char>,
    pub connected_at: u64,
    pub bytes_sent: u64,
    pub bytes_received: u64,
    pub messages_relayed: u64,
}

/// Model of the whole metrics store.
#[verifier::ext_equal]
pub ghost struct StoreView {
    pub conns: Seq<ConnView>,
    pub history: Seq<u64>,
    pub addrs: Seq<Seq<char>>,
    pub start_time: u64,
    pub peer_id: Seq<char>,
}

/// Model of one materialized snapshot.
#[verifier::ext_equal]
pub ghost struct MetricsView {
    pub total_connections: u64,
    pub active_connections: u64,
    pub total_bytes_transferred_24h: u64,
    pub total_messages_relayed_24h: u64,
    pub relay_addresses: Seq<Seq<char>>,
    pub uptime: u64,
    pub connections: Seq<ConnView>,
}

pub open spec fn has_peer(conns: Seq<ConnView>, p: Seq<char>) -> bool {
    exists|i: int| 0 <= i < conns.len() && conns[i].peer == p
}

/// The index of the record for peer `p`; meaningful only when `has_peer`
/// holds, and unique when `unique_peers` holds.
pub open spec fn peer_index(conns: Seq<ConnView>, p: Seq<char>) -> int {
    choose|i: int| 0 <= i < conns.len() && conns[i].peer == p
}

/// At most one record per peer identifier.
pub open spec fn unique_peers(conns: Seq<ConnView>) -> bool {
    forall|i: int, j: int| 0 <= i < j < conns.len() ==> conns[i].peer != conns[j].peer
}

pub open spec fn contains_addr(addrs: Seq<Seq<char>>, a: Seq<char>) -> bool {
    exists|i: int| 0 <= i < addrs.len() && addrs[i] == a
}

/// The relay address list is duplicate-free.
pub open spec fn unique_addrs(addrs: Seq<Seq<char>>) -> bool {
    forall|i: int, j: int| 0 <= i < j < addrs.len() ==> addrs[i] != addrs[j]
}

/// Well-formedness of the store: one record per peer, deduplicated addresses.
pub open spec fn wf_store(s: StoreView) -> bool {
    &&& unique_peers(s.conns)
    &&& unique_addrs(s.addrs)
}

/// The record created at establishment: fresh timestamp, zeroed counters.
pub open spec fn fresh_conn(p: Seq<char>, now: u64) -> ConnView {
    ConnView { peer: p, connected_at: now, bytes_sent: 0, bytes_received: 0, messages_relayed: 0 }
}

pub open spec fn empty_store(peer_id: Seq<char>, start_time: u64) -> StoreView {
    StoreView {
        conns: Seq::<ConnView>::empty(),
        history: Seq::<u64>::empty(),
        addrs: Seq::<Seq<char>>::empty(),
        start_time,
        peer_id,
    }
}

/// Establishment: insert or overwrite the peer's record with a fresh one
/// ("most recent establishment wins"), and append to the history.
pub open spec fn establish_model(s: StoreView, p: Seq<char>, now: u64) -> StoreView {
    let conns = if has_peer(s.conns, p) {
        s.conns.update(peer_index(s.conns, p), fresh_conn(p, now))
    } else {
        s.conns.push(fresh_conn(p, now))
    };
    StoreView { conns, history: s.history.push(now), ..s }
}

/// Closure: drop the peer's record if present; no-op otherwise.
pub open spec fn close_model(s: StoreView, p: Seq<char>) -> StoreView {
    if has_peer(s.conns, p) {
        StoreView { conns: s.conns.remove(peer_index(s.conns, p)), ..s }
    } else {
        s
    }
}

/// Saturating addition on `u64`.
pub open spec fn sat_add_u64(a: u64, b: u64) -> u64 {
    if a + b > u64::MAX {
        u64::MAX
    } else {
        (a + b) as u64
    }
}

pub open spec fn with_traffic(c: ConnView, sent: u64, received: u64) -> ConnView {
    ConnView {
        bytes_sent: sat_add_u64(c.bytes_sent, sent),
        bytes_received: sat_add_u64(c.bytes_received, received),
        ..c
    }
}

/// Traffic: add to the peer's counters if a record exists; dropped otherwise.
pub open spec fn traffic_model(s: StoreView, p: Seq<char>, sent: u64, received: u64) -> StoreView {
    if has_peer(s.conns, p) {
        let i = peer_index(s.conns, p);
        StoreView { conns: s.conns.update(i, with_traffic(s.conns[i], sent, received)), ..s }
    } else {
        s
    }
}

pub open spec fn with_relayed(c: ConnView) -> ConnView {
    ConnView { messages_relayed: sat_add_u64(c.messages_relayed, 1), ..c }
}

/// Relay: bump the peer's relay counter if a record exists; dropped otherwise.
pub open spec fn relay_model(s: StoreView, p: Seq<char>) -> StoreView {
    if has_peer(s.conns, p) {
        let i = peer_index(s.conns, p);
        StoreView { conns: s.conns.update(i, with_relayed(s.conns[i])), ..s }
    } else {
        s
    }
}

/// Address registration: append if new, keep insertion order, never remove.
pub open spec fn add_addr_model(s: StoreView, a: Seq<char>) -> StoreView {
    if contains_addr(s.addrs, a) {
        s
    } else {
        StoreView { addrs: s.addrs.push(a), ..s }
    }
}

/// Start of the rolling window ending at `now`, clamped at the epoch.
pub open spec fn window_start(now: u64) -> u64 {
    if now >= WINDOW_MS {
        (now - WINDOW_MS) as u64
    } else {
        0
    }
}

/// How many history entries fall in the window (inclusive boundary).
pub open spec fn count_in_window(history: Seq<u64>, ws: u64) -> nat
    decreases history.len(),
{
    if history.len() == 0 {
        0
    } else {
        count_in_window(history.drop_last(), ws) + if history.last() >= ws {
            1nat
        } else {
            0nat
        }
    }
}

/// Sum of both byte counters over records established inside the window.
pub open spec fn sum_bytes_in_window(conns: Seq<ConnView>, ws: u64) -> int
    decreases conns.len(),
{
    if conns.len() == 0 {
        0
    } else {
        sum_bytes_in_window(conns.drop_last(), ws) + if conns.last().connected_at >= ws {
            conns.last().bytes_sent + conns.last().bytes_received
        } else {
            0
        }
    }
}

/// Sum of the relay counters over records established inside the window.
pub open spec fn sum_msgs_in_window(conns: Seq<ConnView>, ws: u64) -> int
    decreases conns.len(),
{
    if conns.len() == 0 {
        0
    } else {
        sum_msgs_in_window(conns.drop_last(), ws) + if conns.last().connected_at >= ws {
            conns.last().messages_relayed as int
        } else {
            0
        }
    }
}

pub open spec fn clamp_u64(x: int) -> u64 {
    if x < 0 {
        0
    } else if x > u64::MAX {
        u64::MAX
    } else {
        x as u64
    }
}

/// The snapshot derived from store state `s` at time `now`: windowed totals,
/// instantaneous active count, the full address list, saturating uptime, and
/// a copy of every active record.
pub open spec fn snapshot_model(s: StoreView, now: u64) -> MetricsView {
    MetricsView {
        total_connections: clamp_u64(count_in_window(s.history, window_start(now)) as int),
        active_connections: clamp_u64(s.conns.len() as int),
        total_bytes_transferred_24h: clamp_u64(sum_bytes_in_window(s.conns, window_start(now))),
        total_messages_relayed_24h: clamp_u64(sum_msgs_in_window(s.conns, window_start(now))),
        relay_addresses: s.addrs,
        uptime: if now >= s.start_time {
            (now - s.start_time) as u64
        } else {
            0
        },
        connections: s.conns,
    }
}

pub proof fn lemma_sum_bytes_nonneg(conns: Seq<ConnView>, ws: u64)
    ensures
        sum_bytes_in_window(conns, ws) >= 0,
    decreases conns.len(),
{
    if conns.len() > 0 {
        lemma_sum_bytes_nonneg(conns.drop_last(), ws);
    }
}

pub proof fn lemma_sum_msgs_nonneg(conns: Seq<ConnView>, ws: u64)
    ensures
        sum_msgs_in_window(conns, ws) >= 0,
    decreases conns.len(),
{
    if conns.len() > 0 {
        lemma_sum_msgs_nonneg(conns.drop_last(), ws);
    }
}

/// Saturating accumulation computes the clamp of the exact sum.
pub proof fn lemma_sat_clamp(s: int, x: u64)
    requires
        s >= 0,
    ensures
        sat_add_u64(clamp_u64(s), x) == clamp_u64(s + x),
{
}

/// Under uniqueness, any index holding peer `p` is the `peer_index`.
pub proof fn lemma_peer_index(conns: Seq<ConnView>, p: Seq<char>, i: int)
    requires
        unique_peers(conns),
        0 <= i < conns.len(),
        conns[i].peer == p,
    ensures
        has_peer(conns, p),
        peer_index(conns, p) == i,
{
    assert(has_peer(conns, p));
    let j = peer_index(conns, p);
    if i < j {
        assert(conns[i].peer != conns[j].peer);
    } else if j < i {
        assert(conns[j].peer != conns[i].peer);
    }
}

} // verus!
