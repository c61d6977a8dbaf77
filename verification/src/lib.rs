//! Metrics aggregation core of a network relay node.
//!
//! The store ingests connection lifecycle events (establishment, closure,
//! traffic, relayed messages, observed addresses) and serves materialized
//! point-in-time snapshots with rolling 24-hour aggregates.

pub mod clock;
pub mod dispatch;
pub mod fmt;
pub mod laws;
pub mod metrics;
pub mod model;

use vstd::prelude::*;

verus! {

/// The multiaddresses the relay listens on: WebSocket over TCP port 3000,
/// on every IPv4 and IPv6 interface.
pub fn get_listen_addrs() -> (r: Vec<String>)
    ensures
        r@.len() == 2,
        r@[0]@ == "/ip4/0.0.0.0/tcp/3000/ws"@,
        r@[1]@ == "/ip6/::/tcp/3000/ws"@,
{
    let mut r: Vec<String> = Vec::new();
    r.push(String::from_str("/ip4/0.0.0.0/tcp/3000/ws"));
    r.push(String::from_str("/ip6/::/tcp/3000/ws"));
    r
}

} // verus!
