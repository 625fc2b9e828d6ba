//! The relay: a node that forwards fragments, acknowledgements and failure
//! reports along the path that their sender chose, takes part in floods, and
//! tells the controller of every packet that it sends or discards.
//!
//! A [`Relay`] holds no queues. It is handed one packet at a time, together
//! with the number drawn for the fault decision, and returns the actions to
//! take; whoever owns the queues carries them out in order.

use crate::fault::DropRate;
use crate::model::{
    advanced, fan_out, flood_predecessors, nack_for, ActionView, FloodKey, RelayState,
};
use crate::packet::{
    duplicate_hops, duplicate_trace, Command, Event, FloodRequest, FloodResponse, Nack, NackType,
    NodeId, NodeType, Packet, PacketKind, PacketType, SourceRoutingHeader,
};
use vstd::prelude::*;

verus! {

/// One thing that a relay asks to be done.
#[derive(Clone, Debug, PartialEq, Eq)]
pub enum Action {
    /// Put the packet on the queue that leads to `to`.
    Deliver { to: NodeId, packet: Packet },
    /// Tell the controller.
    Report(Event),
}

impl View for Action {
    type V = ActionView;

    open spec fn view(&self) -> ActionView {
        match *self {
            Action::Deliver { to, packet } => ActionView::Deliver { to, packet: packet@ },
            Action::Report(event) => ActionView::Report(event@),
        }
    }
}

/// The models of a list of actions, in its order.
pub open spec fn view_actions(actions: Seq<Action>) -> Seq<ActionView> {
    actions.map_values(|action: Action| action@)
}

/// The entries of `nodes` without repetitions, each where it first occurs.
pub open spec fn distinct(nodes: Seq<NodeId>) -> Seq<NodeId>
    decreases nodes.len(),
{
    if nodes.len() == 0 {
        Seq::empty()
    } else if distinct(nodes.drop_last()).contains(nodes.last()) {
        distinct(nodes.drop_last())
    } else {
        distinct(nodes.drop_last()).push(nodes.last())
    }
}

/// `distinct` lists every entry once and no others.
pub proof fn lemma_distinct(nodes: Seq<NodeId>)
    ensures
        distinct(nodes).no_duplicates(),
        forall|node: NodeId| #[trigger] distinct(nodes).contains(node) ==> nodes.contains(node),
        forall|node: NodeId| #[trigger] nodes.contains(node) ==> distinct(nodes).contains(node),
    decreases nodes.len(),
{
    if nodes.len() > 0 {
        let front = nodes.drop_last();
        let kept = distinct(front);
        lemma_distinct(front);
        assert forall|node: NodeId| #[trigger]
            distinct(nodes).contains(node) implies nodes.contains(node) by {
            let j = choose|j: int| 0 <= j < distinct(nodes).len() && distinct(nodes)[j] == node;
            if j < kept.len() {
                assert(kept[j] == node);
                assert(kept.contains(node));
                assert(front.contains(node));
                let i = choose|i: int| 0 <= i < front.len() && front[i] == node;
                assert(nodes[i] == node);
            } else {
                assert(nodes[nodes.len() - 1] == node);
            }
        }
        assert forall|node: NodeId| #[trigger]
            nodes.contains(node) implies distinct(nodes).contains(node) by {
            let i = choose|i: int| 0 <= i < nodes.len() && nodes[i] == node;
            if i < nodes.len() - 1 {
                assert(front[i] == node);
                assert(front.contains(node));
                assert(kept.contains(node));
                let j = choose|j: int| 0 <= j < kept.len() && kept[j] == node;
                assert(distinct(nodes)[j] == node);
            } else if kept.contains(node) {
                let j = choose|j: int| 0 <= j < kept.len() && kept[j] == node;
                assert(distinct(nodes)[j] == node);
            } else {
                assert(distinct(nodes)[kept.len() as int] == node);
            }
        }
    }
}

fn push_action(actions: &mut Vec<Action>, action: Action)
    ensures
        view_actions(final(actions)@) == view_actions(old(actions)@).push(action@),
{
    actions.push(action);
    assert(view_actions(actions@) =~= view_actions(old(actions)@).push(action@));
}

fn contains_node(nodes: &Vec<NodeId>, node: NodeId) -> (found: bool)
    ensures
        found == nodes@.contains(node),
{
    let mut i: usize = 0;
    while i < nodes.len()
        invariant
            i <= nodes.len(),
            forall|k: int| 0 <= k < i ==> nodes@[k] != node,
        decreases nodes.len() - i,
    {
        if nodes[i] == node {
            return true;
        }
        i += 1;
    }
    false
}

/// The neighbors of a relay: a list of nodes in which none occurs twice.
#[derive(Debug, PartialEq, Eq)]
struct Links {
    nodes: Vec<NodeId>,
}

impl Links {
    #[verifier::type_invariant]
    spec fn nodes_distinct(self) -> bool {
        self.nodes@.no_duplicates()
    }
}

/// A relay of the network.
#[derive(Debug, PartialEq, Eq)]
pub struct Relay {
    id: NodeId,
    links: Links,
    seen: Vec<FloodKey>,
    drop_rate: DropRate,
    crash_received: bool,
}

impl View for Relay {
    type V = RelayState;

    closed spec fn view(&self) -> RelayState {
        RelayState {
            id: self.id,
            neighbors: self.links.nodes@,
            seen: self.seen@.to_set(),
            drop_threshold: self.drop_rate.threshold(),
            crash_received: self.crash_received,
        }
    }
}

impl Relay {
    /// A relay with the given id, neighbors and drop rate that has seen no
    /// flood and no command. A neighbor listed more than once counts once,
    /// at its first place.
    pub fn new(id: NodeId, neighbors: Vec<NodeId>, drop_rate: DropRate) -> (relay: Relay)
        ensures
            relay@ == (RelayState {
                id,
                neighbors: distinct(neighbors@),
                seen: Set::empty(),
                drop_threshold: drop_rate.threshold(),
                crash_received: false,
            }),
            relay@.well_formed(),
    {
        let mut kept: Vec<NodeId> = Vec::new();
        let mut i: usize = 0;
        while i < neighbors.len()
            invariant
                i <= neighbors.len(),
                kept@ == distinct(neighbors@.take(i as int)),
            decreases neighbors.len() - i,
        {
            assert(neighbors@.take(i + 1).drop_last() == neighbors@.take(i as int));
            if !contains_node(&kept, neighbors[i]) {
                kept.push(neighbors[i]);
            }
            i += 1;
        }
        assert(neighbors@.take(neighbors.len() as int) == neighbors@);
        proof {
            lemma_distinct(neighbors@);
        }
        let seen: Vec<FloodKey> = Vec::new();
        assert(seen@.to_set() =~= Set::<FloodKey>::empty());
        Relay { id, links: Links { nodes: kept }, seen, drop_rate, crash_received: false }
    }

    /// The id of this relay.
    pub fn id(&self) -> (id: NodeId)
        ensures
            id == self@.id,
    {
        self.id
    }

    /// The neighbors of this relay, in the order in which a flood is passed
    /// on to them.
    pub fn neighbors(&self) -> (neighbors: &Vec<NodeId>)
        ensures
            neighbors@ == self@.neighbors,
            self@.well_formed(),
    {
        proof {
            use_type_invariant(&self.links);
        }
        &self.links.nodes
    }

    /// The drop rate of this relay.
    pub fn drop_rate(&self) -> (rate: DropRate)
        ensures
            rate.threshold() == self@.drop_threshold,
    {
        self.drop_rate
    }

    /// Whether a crash command has reached this relay.
    pub fn crash_received(&self) -> (received: bool)
        ensures
            received == self@.crash_received,
    {
        self.crash_received
    }

    /// Whether this relay has an outbound queue to `node`.
    pub fn is_linked(&self, node: NodeId) -> (linked: bool)
        ensures
            linked == self@.linked(node),
    {
        contains_node(&self.links.nodes, node)
    }

    /// Whether this relay has seen the flood that `initiator_id` started
    /// under the number `flood_id`.
    pub fn has_seen(&self, initiator_id: NodeId, flood_id: u64) -> (seen: bool)
        ensures
            seen == self@.seen.contains((initiator_id, flood_id)),
    {
        let mut i: usize = 0;
        while i < self.seen.len()
            invariant
                i <= self.seen.len(),
                forall|k: int| 0 <= k < i ==> self.seen@[k] != (initiator_id, flood_id),
            decreases self.seen.len() - i,
        {
            if self.seen[i].0 == initiator_id && self.seen[i].1 == flood_id {
                assert(self.seen@.contains((initiator_id, flood_id)));
                return true;
            }
            i += 1;
        }
        assert(!self.seen@.contains((initiator_id, flood_id)));
        false
    }

    /// Takes note of a command from the controller. A crash command is
    /// remembered; packets are handled after it as before.
    pub fn handle_command(&mut self, command: Command)
        ensures
            final(self)@ == old(self)@.after_command(command),
    {
        match command {
            Command::Crash => {
                self.crash_received = true;
            },
        }
    }

    /// Reacts to one packet: returns the actions to take, in order, and
    /// remembers the flood if the packet is a flood request. `draw` is the
    /// number drawn for the fault decision.
    pub fn handle_packet(&mut self, packet: Packet, draw: u32) -> (actions: Vec<Action>)
        ensures
            view_actions(actions@) == old(self)@.react(packet@, draw),
            final(self)@ == old(self)@.after(packet@),
            final(self)@.well_formed(),
    {
        proof {
            use_type_invariant(&self.links);
        }
        let mut actions: Vec<Action> = Vec::new();
        assert(view_actions(actions@) =~= Seq::<ActionView>::empty());
        match &packet.pack_type {
            PacketType::FloodRequest(request) => {
                self.flood(&packet, request, &mut actions);
                let key: FloodKey = (request.initiator_id, request.flood_id);
                if self.has_seen(request.initiator_id, request.flood_id) {
                    assert(self.seen@.to_set().insert(key) =~= self.seen@.to_set());
                } else {
                    proof {
                        self.seen@.lemma_push_to_set_commute(key);
                    }
                    self.seen.push(key);
                }
            },
            _ => {
                self.forward(&packet, draw, &mut actions);
            },
        }
        actions
    }

    /// Appends to `actions` what it takes to send `packet` to the node under
    /// its cursor.
    fn transmit(&self, packet: Packet, actions: &mut Vec<Action>)
        ensures
            view_actions(final(actions)@) == view_actions(old(actions)@) + self@.transmit(packet@),
    {
        let header = &packet.routing_header;
        if header.hop_index < header.hops.len() && self.is_linked(header.hops[header.hop_index]) {
            let to: NodeId = header.hops[header.hop_index];
            let copy = packet.duplicate();
            push_action(actions, Action::Deliver { to, packet });
            push_action(actions, Action::Report(Event::PacketSent(copy)));
            assert(view_actions(actions@) =~= view_actions(old(actions)@) + self@.transmit(
                packet@,
            ));
        } else {
            assert(view_actions(actions@) =~= view_actions(old(actions)@) + self@.transmit(
                packet@,
            ));
        }
    }

    /// Appends to `actions` the reaction to a source-routed packet.
    fn forward(&self, packet: &Packet, draw: u32, actions: &mut Vec<Action>)
        requires
            !(packet@.kind is FloodRequest),
            view_actions(old(actions)@) == Seq::<ActionView>::empty(),
        ensures
            view_actions(final(actions)@) == self@.forward(packet@, draw),
    {
        let header = &packet.routing_header;
        let is_fragment = match &packet.pack_type {
            PacketType::Fragment(_) => true,
            _ => false,
        };
        let here: bool = header.hop_index < header.hops.len() && header.hops[header.hop_index]
            == self.id;
        let next = header.next_hop();
        if is_fragment && here && next.is_none() {
            self.transmit(nack_packet(packet, NackType::DestinationIsDrone), actions);
            return ;
        }
        let reachable: bool = match next {
            Some(node) => here && self.is_linked(node),
            None => false,
        };
        if !reachable {
            self.transmit(nack_packet(packet, NackType::ErrorInRouting), actions);
            return ;
        }
        if is_fragment && self.drop_rate.decide(draw) {
            push_action(actions, Action::Report(Event::PacketDropped(packet.duplicate())));
            self.transmit(nack_packet(packet, NackType::Dropped), actions);
            assert(view_actions(actions@) =~= self@.forward(packet@, draw));
            return ;
        }
        let onward = Packet {
            pack_type: packet.pack_type.duplicate(),
            routing_header: SourceRoutingHeader {
                hop_index: header.hop_index + 1,
                hops: duplicate_hops(&header.hops),
            },
            session_id: packet.session_id,
        };
        assert(onward@ == advanced(packet@));
        self.transmit(onward, actions);
    }

    /// Appends to `actions` the reaction to a flood request.
    fn flood(&self, packet: &Packet, request: &FloodRequest, actions: &mut Vec<Action>)
        requires
            packet@.kind == PacketKind::FloodRequest(request@),
            view_actions(old(actions)@) == Seq::<ActionView>::empty(),
        ensures
            view_actions(final(actions)@) == self@.flood(packet@, request@),
    {
        let sender: NodeId = if request.path_trace.len() > 0 {
            request.path_trace[request.path_trace.len() - 1].0
        } else {
            request.initiator_id
        };
        let mut trace = duplicate_trace(&request.path_trace);
        trace.push((self.id, NodeType::Relay));
        let known = self.has_seen(request.initiator_id, request.flood_id);
        if !known {
            let onward = Packet {
                pack_type: PacketType::FloodRequest(
                    FloodRequest {
                        flood_id: request.flood_id,
                        initiator_id: request.initiator_id,
                        path_trace: duplicate_trace(&trace),
                    },
                ),
                routing_header: packet.routing_header.duplicate(),
                session_id: packet.session_id,
            };
            self.broadcast(&onward, sender, actions);
            if actions.len() > 0 {
                return ;
            }
        }
        let mut hops: Vec<NodeId> = Vec::new();
        hops.push(self.id);
        if request.path_trace.len() == 0 {
            hops.push(request.initiator_id);
        } else {
            let mut left: usize = request.path_trace.len();
            while left > 0
                invariant
                    left <= request.path_trace.len(),
                    hops@.len() == 1 + request.path_trace.len() - left,
                    hops@[0] == self.id,
                    forall|k: int|
                        1 <= k < hops@.len() ==> hops@[k] == request.path_trace@[
                            request.path_trace.len() - k
                        ].0,
                decreases left,
            {
                left -= 1;
                hops.push(request.path_trace[left].0);
            }
        }
        assert(hops@ =~= flood_predecessors(request@).push(self.id).reverse());
        let response = Packet {
            pack_type: PacketType::FloodResponse(
                FloodResponse { flood_id: request.flood_id, path_trace: trace },
            ),
            routing_header: SourceRoutingHeader { hop_index: 1, hops },
            session_id: packet.session_id,
        };
        assert(response@ == self@.flood_response(packet@, request@));
        self.transmit(response, actions);
    }

    /// Appends to `actions` one delivery of `packet`, with its report, for
    /// each neighbor but `sender`.
    fn broadcast(&self, packet: &Packet, sender: NodeId, actions: &mut Vec<Action>)
        requires
            view_actions(old(actions)@) == Seq::<ActionView>::empty(),
        ensures
            view_actions(final(actions)@) == fan_out(
                self@.neighbors.filter(|node: NodeId| node != sender),
                packet@,
            ),
            final(actions)@.len() == 2 * self@.neighbors.filter(|node: NodeId| node != sender).len(),
    {
        let ghost keep = |node: NodeId| node != sender;
        assert(view_actions(actions@).len() == actions@.len());
        assert(self.links.nodes@.take(0).filter(keep) =~= Seq::<NodeId>::empty());
        let mut i: usize = 0;
        while i < self.links.nodes.len()
            invariant
                i <= self.links.nodes.len(),
                keep == (|node: NodeId| node != sender),
                view_actions(actions@) == fan_out(
                    self.links.nodes@.take(i as int).filter(keep),
                    packet@,
                ),
                actions@.len() == 2 * self.links.nodes@.take(i as int).filter(keep).len(),
            decreases self.links.nodes.len() - i,
        {
            let node: NodeId = self.links.nodes[i];
            proof {
                let before = self.links.nodes@.take(i as int);
                assert(self.links.nodes@.take(i + 1) == before.push(node));
                before.lemma_filter_push(node, keep);
            }
            if node != sender {
                let ghost targets = self.links.nodes@.take(i as int).filter(keep);
                push_action(actions, Action::Deliver { to: node, packet: packet.duplicate() });
                push_action(actions, Action::Report(Event::PacketSent(packet.duplicate())));
                assert(view_actions(actions@) =~= fan_out(targets.push(node), packet@));
            }
            i += 1;
        }
        assert(self.links.nodes@.take(self.links.nodes.len() as int) == self.links.nodes@);
    }
}

/// The failure report that answers `packet`.
fn nack_packet(packet: &Packet, nack_type: NackType) -> (nack: Packet)
    ensures
        nack@ == nack_for(packet@, nack_type),
{
    Packet {
        pack_type: PacketType::Nack(
            Nack { fragment_index: packet.pack_type.fragment_index(), nack_type },
        ),
        routing_header: packet.routing_header.reply(),
        session_id: packet.session_id,
    }
}

} // verus!
