//! Classification of network-engine events into metrics-store mutations.
//!
//! Each event is handled independently: it maps to at most one store
//! mutation and at most one command to hand back to the network engine.

use vstd::prelude::*;

use crate::clock::clock_now_ms;
use crate::metrics::MetricsCollector;
use crate::model::{add_addr_model, close_model, establish_model, relay_model, StoreView};

verus! {

/// A lifecycle event reported by the network engine, reduced to the plain
/// values the metrics core reads. Addresses arrive already rendered as
/// strings; the caller resolves engine-specific forms (such as appending
/// the local peer identity to a listen address) before building the event.
pub enum NetworkEvent {
    /// A peer's relay reservation was accepted.
    ReservationAccepted { src_peer: String, renewed: bool },
    /// A relayed circuit between two peers was accepted.
    CircuitAccepted { src_peer: String, dst_peer: String },
    /// A transport-level connection to a peer was established.
    ConnectionEstablished { peer: String },
    /// A transport-level connection closed; `remaining_established` is how
    /// many connections to that peer are still open.
    ConnectionClosed { peer: String, remaining_established: u32 },
    /// The engine learned the externally observed address of this node.
    IdentifyReceived { observed_addr: String },
    /// The engine began listening on a local address.
    NewListenAddr { address: String },
    /// Any other event category: ignored.
    Other,
}

/// A command the dispatcher hands back for the network engine.
pub enum EngineCommand {
    AddExternalAddress(String),
}

/// The store state after dispatching `e` at time `now`.
pub open spec fn dispatch_model(s: StoreView, e: &NetworkEvent, now: u64) -> StoreView {
    match e {
        NetworkEvent::ReservationAccepted { src_peer, .. } => establish_model(s, src_peer@, now),
        NetworkEvent::CircuitAccepted { src_peer, .. } => relay_model(s, src_peer@),
        NetworkEvent::ConnectionEstablished { peer } => establish_model(s, peer@, now),
        NetworkEvent::ConnectionClosed { peer, remaining_established } => {
            if *remaining_established == 0 {
                close_model(s, peer@)
            } else {
                s
            }
        },
        NetworkEvent::IdentifyReceived { .. } => s,
        NetworkEvent::NewListenAddr { address } => add_addr_model(s, address@),
        NetworkEvent::Other => s,
    }
}

/// The address (if any) the engine is told to adopt for `e`.
pub open spec fn command_model(e: &NetworkEvent) -> Option<Seq<char>> {
    match e {
        NetworkEvent::IdentifyReceived { observed_addr } => Some(observed_addr@),
        _ => None,
    }
}

pub open spec fn command_view(cmd: &Option<EngineCommand>) -> Option<Seq<char>> {
    match cmd {
        Some(EngineCommand::AddExternalAddress(a)) => Some(a@),
        None => None,
    }
}

/// Apply the mutation that `event` calls for, timestamping establishments
/// with `now`, and return the command owed to the engine.
pub fn dispatch_event_at(metrics: &mut MetricsCollector, event: &NetworkEvent, now: u64) -> (cmd:
    Option<EngineCommand>)
    requires
        old(metrics).wf(),
    ensures
        final(metrics).wf(),
        final(metrics)@ == dispatch_model(old(metrics)@, event, now),
        command_view(&cmd) == command_model(event),
{
    match event {
        NetworkEvent::ReservationAccepted { src_peer, renewed: _ } => {
            metrics.connection_established_at(src_peer.clone(), now);
            None
        },
        NetworkEvent::CircuitAccepted { src_peer, dst_peer: _ } => {
            metrics.message_relayed(src_peer);
            None
        },
        NetworkEvent::ConnectionEstablished { peer } => {
            metrics.connection_established_at(peer.clone(), now);
            None
        },
        NetworkEvent::ConnectionClosed { peer, remaining_established } => {
            if *remaining_established == 0 {
                metrics.connection_closed(peer);
            }
            None
        },
        NetworkEvent::IdentifyReceived { observed_addr } => Some(
            EngineCommand::AddExternalAddress(observed_addr.clone()),
        ),
        NetworkEvent::NewListenAddr { address } => {
            metrics.add_relay_address(address.clone());
            None
        },
        NetworkEvent::Other => None,
    }
}

/// Dispatch `event` at the instant read from the system clock.
pub fn dispatch_event(metrics: &mut MetricsCollector, event: &NetworkEvent) -> (cmd: Option<
    EngineCommand,
>)
    requires
        old(metrics).wf(),
    ensures
        final(metrics).wf(),
        exists|now: u64| final(metrics)@ == dispatch_model(old(metrics)@, event, now),
        command_view(&cmd) == command_model(event),
{
    let now = clock_now_ms();
    let cmd = dispatch_event_at(metrics, event, now);
    proof {
        assert(metrics@ == dispatch_model(old(metrics)@, event, now));
    }
    cmd
}

} // verus!
