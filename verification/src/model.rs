//! The behaviour of a relay, stated as mathematics: its state, and what it
//! does with one packet.
//!
//! A relay reacts to a packet with a sequence of actions and, for a flood
//! request, by remembering the flood. Nothing else about it changes, so the
//! whole behaviour is the pair of [`RelayState::react`] and
//! [`RelayState::after`].

use crate::packet::{
    Command, EventView, FloodRequestView, FloodResponseView, Nack, NackType, NodeId, NodeType,
    PacketKind, PacketView, Route, TraceEntry,
};
use vstd::prelude::*;

verus! {

/// A flood as a relay remembers it: who started it, and its number there.
pub type FloodKey = (NodeId, u64);

/// Mathematical model of an [`Action`](crate::relay::Action).
#[verifier::ext_equal]
pub enum ActionView {
    /// Put the packet on the queue that leads to `to`.
    Deliver { to: NodeId, packet: PacketView },
    /// Tell the controller.
    Report(EventView),
}

/// Mathematical model of a [`Relay`](crate::relay::Relay).
#[verifier::ext_equal]
pub struct RelayState {
    pub id: NodeId,
    /// The nodes to which the relay has an outbound queue, in the order in
    /// which a flood is passed on to them.
    pub neighbors: Seq<NodeId>,
    /// The floods that the relay has seen.
    pub seen: Set<FloodKey>,
    /// The number of draws, out of all of `u32`, on which the relay discards a
    /// fragment that it could forward.
    pub drop_threshold: nat,
    pub crash_received: bool,
}

/// The key under which a relay remembers the flood of a request.
pub open spec fn flood_key(request: FloodRequestView) -> FloodKey {
    (request.initiator_id, request.flood_id)
}

/// The node from which a flood request has come: the last one in its trace,
/// or, for a trace without entries, the initiator.
pub open spec fn flood_sender(request: FloodRequestView) -> NodeId {
    if request.path_trace.len() > 0 {
        request.path_trace.last().0
    } else {
        request.initiator_id
    }
}

/// The nodes that a flood request has passed, first to last: those of its
/// trace, or, for a trace without entries, the initiator alone.
pub open spec fn flood_predecessors(request: FloodRequestView) -> Seq<NodeId> {
    if request.path_trace.len() > 0 {
        request.path_trace.map_values(|entry: TraceEntry| entry.0)
    } else {
        seq![request.initiator_id]
    }
}

/// The failure report that answers `packet`: it names the packet's fragment
/// index and session and travels the packet's path backwards.
pub open spec fn nack_for(packet: PacketView, nack_type: NackType) -> PacketView {
    PacketView {
        kind: PacketKind::Nack(Nack { fragment_index: packet.kind.fragment_index(), nack_type }),
        route: packet.route.reply(),
        session_id: packet.session_id,
    }
}

/// The packet with its cursor moved one position on.
pub open spec fn advanced(packet: PacketView) -> PacketView {
    PacketView { kind: packet.kind, route: packet.route.advanced(), session_id: packet.session_id }
}

/// One delivery of `packet` to each of `targets`, in their order, each
/// followed by the report that it was sent.
pub open spec fn fan_out(targets: Seq<NodeId>, packet: PacketView) -> Seq<ActionView> {
    Seq::new(
        2 * targets.len(),
        |k: int|
            if k % 2 == 0 {
                ActionView::Deliver { to: targets[k / 2], packet }
            } else {
                ActionView::Report(EventView::PacketSent(packet))
            },
    )
}

impl RelayState {
    /// No neighbor is listed twice.
    pub open spec fn well_formed(self) -> bool {
        self.neighbors.no_duplicates()
    }

    /// The relay has an outbound queue to `node`.
    pub open spec fn linked(self, node: NodeId) -> bool {
        self.neighbors.contains(node)
    }

    /// Sending `packet` to the node under its cursor: the delivery and the
    /// report of it, or nothing where the cursor names no node or the relay
    /// has no queue to it.
    pub open spec fn transmit(self, packet: PacketView) -> Seq<ActionView> {
        if packet.route.has_current() && self.linked(packet.route.current()) {
            seq![
                ActionView::Deliver { to: packet.route.current(), packet },
                ActionView::Report(EventView::PacketSent(packet)),
            ]
        } else {
            Seq::empty()
        }
    }

    /// Whether the relay discards a fragment on this draw.
    pub open spec fn drops(self, draw: u32) -> bool {
        (draw as nat) < self.drop_threshold
    }

    /// The route ends at this relay.
    pub open spec fn is_destination(self, route: Route) -> bool {
        route.has_current() && route.current() == self.id && !route.has_next()
    }

    /// The route names this relay under its cursor and goes on to a node to
    /// which the relay has a queue.
    pub open spec fn can_forward(self, route: Route) -> bool {
        route.has_next() && route.current() == self.id && self.linked(route.next())
    }

    /// What the relay does with a source-routed packet: a fragment, an
    /// acknowledgement, a failure report or a flood response.
    pub open spec fn forward(self, packet: PacketView, draw: u32) -> Seq<ActionView> {
        if packet.kind is Fragment && self.is_destination(packet.route) {
            self.transmit(nack_for(packet, NackType::DestinationIsDrone))
        } else if !self.can_forward(packet.route) {
            self.transmit(nack_for(packet, NackType::ErrorInRouting))
        } else if packet.kind is Fragment && self.drops(draw) {
            seq![ActionView::Report(EventView::PacketDropped(packet))] + self.transmit(
                nack_for(packet, NackType::Dropped),
            )
        } else {
            self.transmit(advanced(packet))
        }
    }

    /// The trace of a flood request once this relay has added itself.
    pub open spec fn extended_trace(self, request: FloodRequestView) -> Seq<TraceEntry> {
        request.path_trace.push((self.id, NodeType::Relay))
    }

    /// The flood request as this relay passes it on: the trace extended,
    /// everything else as it came.
    pub open spec fn flood_forward(self, packet: PacketView, request: FloodRequestView) -> PacketView {
        PacketView {
            kind: PacketKind::FloodRequest(
                FloodRequestView {
                    flood_id: request.flood_id,
                    initiator_id: request.initiator_id,
                    path_trace: self.extended_trace(request),
                },
            ),
            route: packet.route,
            session_id: packet.session_id,
        }
    }

    /// The answer of this relay to a flood request: the extended trace, on a
    /// route that leads back over the nodes the request has passed.
    pub open spec fn flood_response(self, packet: PacketView, request: FloodRequestView) -> PacketView {
        PacketView {
            kind: PacketKind::FloodResponse(
                FloodResponseView {
                    flood_id: request.flood_id,
                    path_trace: self.extended_trace(request),
                },
            ),
            route: Route {
                hops: flood_predecessors(request).push(self.id).reverse(),
                hop_index: 1,
            },
            session_id: packet.session_id,
        }
    }

    /// The neighbors to which a flood request is passed on: all but the one
    /// it has come from.
    pub open spec fn flood_targets(self, request: FloodRequestView) -> Seq<NodeId> {
        self.neighbors.filter(|node: NodeId| node != flood_sender(request))
    }

    /// The relay answers the request itself: it has seen the flood before, or
    /// has nobody to pass it on to.
    pub open spec fn answers(self, request: FloodRequestView) -> bool {
        self.seen.contains(flood_key(request)) || self.flood_targets(request).len() == 0
    }

    /// What the relay does with a flood request.
    pub open spec fn flood(self, packet: PacketView, request: FloodRequestView) -> Seq<ActionView> {
        if self.answers(request) {
            self.transmit(self.flood_response(packet, request))
        } else {
            fan_out(self.flood_targets(request), self.flood_forward(packet, request))
        }
    }

    /// The actions with which the relay reacts to `packet`, in the order in
    /// which it takes them. `draw` is the number drawn for the fault
    /// decision; it matters for fragments only.
    pub open spec fn react(self, packet: PacketView, draw: u32) -> Seq<ActionView> {
        match packet.kind {
            PacketKind::FloodRequest(request) => self.flood(packet, request),
            _ => self.forward(packet, draw),
        }
    }

    /// The state of the relay once it has reacted to `packet`: the flood of
    /// a request is remembered, and nothing else changes.
    pub open spec fn after(self, packet: PacketView) -> RelayState {
        match packet.kind {
            PacketKind::FloodRequest(request) => RelayState {
                seen: self.seen.insert(flood_key(request)),
                ..self
            },
            _ => self,
        }
    }

    /// The state of the relay once `command` has reached it.
    pub open spec fn after_command(self, command: Command) -> RelayState {
        match command {
            Command::Crash => RelayState { crash_received: true, ..self },
        }
    }
}

} // verus!
