//! Properties that hold across several store operations, stated over the
//! mathematical model and proved once and for all.

use vstd::prelude::*;

use crate::dispatch::{dispatch_model, NetworkEvent};
use crate::model::{
    add_addr_model, clamp_u64, close_model, contains_addr, establish_model, fresh_conn, has_peer,
    lemma_peer_index, peer_index, snapshot_model, sum_bytes_in_window, sum_msgs_in_window,
    traffic_model, wf_store, window_start, ConnView, StoreView,
};

verus! {

/// Establishment preserves well-formedness and leaves a record for the peer.
pub proof fn lemma_establish_wf(s: StoreView, p: Seq<char>, now: u64)
    requires
        wf_store(s),
    ensures
        wf_store(establish_model(s, p, now)),
        has_peer(establish_model(s, p, now).conns, p),
{
    let c2 = establish_model(s, p, now).conns;
    if has_peer(s.conns, p) {
        let i = peer_index(s.conns, p);
        assert(c2[i] == fresh_conn(p, now));
        assert forall|a: int, b: int| 0 <= a < b < c2.len() implies c2[a].peer != c2[b].peer by {
            assert(c2[a].peer == s.conns[a].peer);
            assert(c2[b].peer == s.conns[b].peer);
        }
    } else {
        let i = s.conns.len() as int;
        assert(c2[i] == fresh_conn(p, now));
        assert forall|a: int, b: int| 0 <= a < b < c2.len() implies c2[a].peer != c2[b].peer by {
            if b < i {
                assert(c2[a].peer == s.conns[a].peer);
                assert(c2[b].peer == s.conns[b].peer);
            } else {
                assert(c2[b].peer == p);
                if s.conns[a].peer == p {
                    assert(has_peer(s.conns, p));
                }
            }
        }
    }
}

/// Closure preserves well-formedness and, under well-formedness, leaves no
/// record for the closed peer.
pub proof fn lemma_close_wf(s: StoreView, p: Seq<char>)
    requires
        wf_store(s),
    ensures
        wf_store(close_model(s, p)),
        !has_peer(close_model(s, p).conns, p),
{
    if has_peer(s.conns, p) {
        let i = peer_index(s.conns, p);
        let c2 = close_model(s, p).conns;
        assert forall|a: int, b: int| 0 <= a < b < c2.len() implies c2[a].peer != c2[b].peer by {
            let a0 = if a < i {
                a
            } else {
                a + 1
            };
            let b0 = if b < i {
                b
            } else {
                b + 1
            };
            assert(c2[a] == s.conns[a0]);
            assert(c2[b] == s.conns[b0]);
        }
        assert forall|j: int| 0 <= j < c2.len() implies c2[j].peer != p by {
            let j0 = if j < i {
                j
            } else {
                j + 1
            };
            assert(c2[j] == s.conns[j0]);
            if s.conns[j0].peer == p {
                lemma_peer_index(s.conns, p, j0);
            }
        }
    }
}

/// Establishing a peer and then taking a snapshot at any instant shows
/// exactly one record for that peer, with zeroed counters and with
/// `connected_at` equal to the establishment instant.
pub proof fn lemma_establish_then_snapshot(s: StoreView, p: Seq<char>, now: u64, at: u64)
    requires
        wf_store(s),
    ensures
        ({
            let m = snapshot_model(establish_model(s, p, now), at);
            &&& has_peer(m.connections, p)
            &&& m.connections[peer_index(m.connections, p)] == fresh_conn(p, now)
            &&& forall|j: int|
                0 <= j < m.connections.len() && m.connections[j].peer == p ==> j == peer_index(
                    m.connections,
                    p,
                )
        }),
{
    lemma_establish_wf(s, p, now);
    let c2 = establish_model(s, p, now).conns;
    let i = if has_peer(s.conns, p) {
        peer_index(s.conns, p)
    } else {
        s.conns.len() as int
    };
    assert(c2[i] == fresh_conn(p, now));
    lemma_peer_index(c2, p, i);
    assert forall|j: int| 0 <= j < c2.len() && c2[j].peer == p implies j == peer_index(c2, p) by {
        lemma_peer_index(c2, p, j);
    }
}

/// Traffic reported for a peer with no active record changes nothing: the
/// store is untouched and any later snapshot is what it would have been.
pub proof fn lemma_traffic_without_record(
    s: StoreView,
    p: Seq<char>,
    sent: u64,
    received: u64,
    at: u64,
)
    requires
        !has_peer(s.conns, p),
    ensures
        traffic_model(s, p, sent, received) == s,
        snapshot_model(traffic_model(s, p, sent, received), at) == snapshot_model(s, at),
{
}

/// Registering the same relay address twice is the same as registering it
/// once: the list stays duplicate-free.
pub proof fn lemma_add_relay_address_idempotent(s: StoreView, a: Seq<char>)
    ensures
        add_addr_model(add_addr_model(s, a), a) == add_addr_model(s, a),
{
    let s1 = add_addr_model(s, a);
    if !contains_addr(s.addrs, a) {
        assert(s1.addrs[s.addrs.len() as int] == a);
        assert(contains_addr(s1.addrs, a));
    }
}

pub proof fn lemma_sum_bytes_remove(conns: Seq<ConnView>, ws: u64, i: int)
    requires
        0 <= i < conns.len(),
    ensures
        sum_bytes_in_window(conns, ws) == sum_bytes_in_window(conns.remove(i), ws) + (
        if conns[i].connected_at >= ws {
            conns[i].bytes_sent + conns[i].bytes_received
        } else {
            0
        }),
    decreases conns.len(),
{
    if i == conns.len() - 1 {
        assert(conns.remove(i) =~= conns.drop_last());
    } else {
        let c = conns.drop_last();
        lemma_sum_bytes_remove(c, ws, i);
        assert(conns.remove(i).drop_last() =~= c.remove(i));
        assert(conns.remove(i).last() == conns.last());
    }
}

pub proof fn lemma_sum_msgs_remove(conns: Seq<ConnView>, ws: u64, i: int)
    requires
        0 <= i < conns.len(),
    ensures
        sum_msgs_in_window(conns, ws) == sum_msgs_in_window(conns.remove(i), ws) + (
        if conns[i].connected_at >= ws {
            conns[i].messages_relayed as int
        } else {
            0
        }),
    decreases conns.len(),
{
    if i == conns.len() - 1 {
        assert(conns.remove(i) =~= conns.drop_last());
    } else {
        let c = conns.drop_last();
        lemma_sum_msgs_remove(c, ws, i);
        assert(conns.remove(i).drop_last() =~= c.remove(i));
        assert(conns.remove(i).last() == conns.last());
    }
}

/// A record established before the window start contributes nothing to the
/// windowed byte and relay totals, yet is still listed among the
/// connections and still counts toward the active-connection count.
pub proof fn lemma_window_excludes_stale(s: StoreView, at: u64, i: int)
    requires
        0 <= i < s.conns.len(),
        s.conns[i].connected_at < window_start(at),
    ensures
        ({
            let m = snapshot_model(s, at);
            let rest = StoreView { conns: s.conns.remove(i), ..s };
            let mrest = snapshot_model(rest, at);
            &&& m.total_bytes_transferred_24h == mrest.total_bytes_transferred_24h
            &&& m.total_messages_relayed_24h == mrest.total_messages_relayed_24h
            &&& m.connections == s.conns
            &&& m.active_connections == clamp_u64(s.conns.len() as int)
        }),
{
    let ws = window_start(at);
    lemma_sum_bytes_remove(s.conns, ws, i);
    lemma_sum_msgs_remove(s.conns, ws, i);
}

/// A peer established over two underlying connections survives a closure
/// that reports another connection still open, and is evicted only by the
/// closure that reports none remaining.
pub proof fn lemma_close_only_when_last(
    s: StoreView,
    p: Seq<char>,
    now1: u64,
    now2: u64,
    at: u64,
    partial: &NetworkEvent,
    last: &NetworkEvent,
)
    requires
        wf_store(s),
        partial matches NetworkEvent::ConnectionClosed { peer, remaining_established } && peer@
            == p && *remaining_established != 0,
        last matches NetworkEvent::ConnectionClosed { peer, remaining_established } && peer@ == p
            && *remaining_established == 0,
    ensures
        ({
            let s2 = establish_model(establish_model(s, p, now1), p, now2);
            let s3 = dispatch_model(s2, partial, at);
            let s4 = dispatch_model(s3, last, at);
            &&& s3 == s2
            &&& has_peer(s3.conns, p)
            &&& !has_peer(s4.conns, p)
        }),
{
    let s1 = establish_model(s, p, now1);
    lemma_establish_wf(s, p, now1);
    let s2 = establish_model(s1, p, now2);
    lemma_establish_wf(s1, p, now2);
    lemma_close_wf(s2, p);
}

/// Every snapshot is internally consistent: the active-connection count is
/// the (clamped) length of the listed connections, and the listed
/// connections and addresses are exactly the store's.
pub proof fn lemma_snapshot_consistent(s: StoreView, at: u64)
    ensures
        ({
            let m = snapshot_model(s, at);
            &&& m.active_connections == clamp_u64(m.connections.len() as int)
            &&& m.connections == s.conns
            &&& m.relay_addresses == s.addrs
        }),
{
}

} // verus!
