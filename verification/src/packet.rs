//! The message schema of the network: routing headers, the five kinds of
//! packet, and the events and commands exchanged with the controller.
//!
//! Every type that owns a `Vec` has a view in which the vector is a `Seq`;
//! contracts throughout the crate are stated over these views.

use vstd::prelude::*;

verus! {

/// Identifier of an endpoint or of a relay.
pub type NodeId = u8;

/// One entry of a flood trace: a node and what it is.
pub type TraceEntry = (NodeId, NodeType);

/// What a node is; paired with its id in flood traces.
#[derive(Clone, Copy, Debug, PartialEq, Eq, Structural)]
pub enum NodeType {
    Client,
    Relay,
    Server,
}

/// Why a packet could not be brought to its destination.
#[derive(Clone, Copy, Debug, PartialEq, Eq, Structural)]
pub enum NackType {
    ErrorInRouting,
    DestinationIsDrone,
    Dropped,
    UnexpectedRecipient,
}

/// Mathematical model of a [`SourceRoutingHeader`].
#[verifier::ext_equal]
pub struct Route {
    pub hops: Seq<NodeId>,
    pub hop_index: nat,
}

/// The path a packet follows, fixed by its sender, and a cursor into it.
///
/// On arrival at a node the cursor names that node's position in `hops`.
#[derive(Clone, Debug, PartialEq, Eq)]
pub struct SourceRoutingHeader {
    pub hop_index: usize,
    pub hops: Vec<NodeId>,
}

impl View for SourceRoutingHeader {
    type V = Route;

    open spec fn view(&self) -> Route {
        Route { hops: self.hops@, hop_index: self.hop_index as nat }
    }
}

impl Route {
    /// The cursor lies within the path or just behind its end.
    pub open spec fn well_formed(self) -> bool {
        self.hop_index <= self.hops.len()
    }

    /// The cursor names a position of the path.
    pub open spec fn has_current(self) -> bool {
        self.hop_index < self.hops.len()
    }

    /// The node under the cursor.
    pub open spec fn current(self) -> NodeId
        recommends
            self.has_current(),
    {
        self.hops[self.hop_index as int]
    }

    /// A position follows the one under the cursor.
    pub open spec fn has_next(self) -> bool {
        self.hop_index + 1 < self.hops.len()
    }

    /// The node behind the one under the cursor.
    pub open spec fn next(self) -> NodeId
        recommends
            self.has_next(),
    {
        self.hops[self.hop_index as int + 1]
    }

    /// The same path with the cursor moved one position on.
    pub open spec fn advanced(self) -> Route {
        Route { hops: self.hops, hop_index: self.hop_index + 1 }
    }

    /// The part of the path that has been travelled, the cursor's position
    /// included; empty where the cursor names no position.
    pub open spec fn traversed(self) -> Seq<NodeId> {
        if self.has_current() {
            self.hops.take(self.hop_index as int + 1)
        } else {
            Seq::empty()
        }
    }

    /// The route of an answer: the travelled part backwards, with the cursor
    /// on the first node to receive it.
    pub open spec fn reply(self) -> Route {
        Route { hops: self.traversed().reverse(), hop_index: 1 }
    }
}

/// A slice of a message: its place in the message and its payload.
#[derive(Clone, Copy, Debug, PartialEq, Eq)]
pub struct Fragment {
    pub fragment_index: u64,
    pub total_n_fragments: u64,
    pub length: u8,
    pub data: [u8; 128],
}

/// Confirms that the fragment with this index has arrived.
#[derive(Clone, Copy, Debug, PartialEq, Eq, Structural)]
pub struct Ack {
    pub fragment_index: u64,
}

/// Reports that the fragment with this index has not arrived, and why.
#[derive(Clone, Copy, Debug, PartialEq, Eq, Structural)]
pub struct Nack {
    pub fragment_index: u64,
    pub nack_type: NackType,
}

/// Mathematical model of a [`FloodRequest`].
#[verifier::ext_equal]
pub struct FloodRequestView {
    pub flood_id: u64,
    pub initiator_id: NodeId,
    pub path_trace: Seq<TraceEntry>,
}

/// A discovery broadcast; every node it passes adds itself to the trace.
#[derive(Clone, Debug, PartialEq, Eq)]
pub struct FloodRequest {
    pub flood_id: u64,
    pub initiator_id: NodeId,
    pub path_trace: Vec<TraceEntry>,
}

impl View for FloodRequest {
    type V = FloodRequestView;

    open spec fn view(&self) -> FloodRequestView {
        FloodRequestView {
            flood_id: self.flood_id,
            initiator_id: self.initiator_id,
            path_trace: self.path_trace@,
        }
    }
}

/// Mathematical model of a [`FloodResponse`].
#[verifier::ext_equal]
pub struct FloodResponseView {
    pub flood_id: u64,
    pub path_trace: Seq<TraceEntry>,
}

/// The answer to a flood request: the trace it had collected where it ended.
#[derive(Clone, Debug, PartialEq, Eq)]
pub struct FloodResponse {
    pub flood_id: u64,
    pub path_trace: Vec<TraceEntry>,
}

impl View for FloodResponse {
    type V = FloodResponseView;

    open spec fn view(&self) -> FloodResponseView {
        FloodResponseView { flood_id: self.flood_id, path_trace: self.path_trace@ }
    }
}

/// Mathematical model of a [`PacketType`].
#[verifier::ext_equal]
pub enum PacketKind {
    Fragment(Fragment),
    Ack(Ack),
    Nack(Nack),
    FloodRequest(FloodRequestView),
    FloodResponse(FloodResponseView),
}

/// What a packet carries.
#[derive(Clone, Debug, PartialEq, Eq)]
pub enum PacketType {
    Fragment(Fragment),
    Ack(Ack),
    Nack(Nack),
    FloodRequest(FloodRequest),
    FloodResponse(FloodResponse),
}

impl View for PacketType {
    type V = PacketKind;

    open spec fn view(&self) -> PacketKind {
        match *self {
            PacketType::Fragment(f) => PacketKind::Fragment(f),
            PacketType::Ack(a) => PacketKind::Ack(a),
            PacketType::Nack(n) => PacketKind::Nack(n),
            PacketType::FloodRequest(r) => PacketKind::FloodRequest(r@),
            PacketType::FloodResponse(r) => PacketKind::FloodResponse(r@),
        }
    }
}

impl PacketKind {
    /// The fragment index that a failure report about this content names:
    /// the one it carries, or 0 where it carries none.
    pub open spec fn fragment_index(self) -> u64 {
        match self {
            PacketKind::Fragment(f) => f.fragment_index,
            PacketKind::Ack(a) => a.fragment_index,
            PacketKind::Nack(n) => n.fragment_index,
            PacketKind::FloodRequest(_) => 0,
            PacketKind::FloodResponse(_) => 0,
        }
    }
}

/// Mathematical model of a [`Packet`].
#[verifier::ext_equal]
pub struct PacketView {
    pub kind: PacketKind,
    pub route: Route,
    pub session_id: u64,
}

/// The envelope that travels between nodes.
#[derive(Clone, Debug, PartialEq, Eq)]
pub struct Packet {
    pub pack_type: PacketType,
    pub routing_header: SourceRoutingHeader,
    pub session_id: u64,
}

impl View for Packet {
    type V = PacketView;

    open spec fn view(&self) -> PacketView {
        PacketView {
            kind: self.pack_type@,
            route: self.routing_header@,
            session_id: self.session_id,
        }
    }
}

/// Mathematical model of an [`Event`].
#[verifier::ext_equal]
pub enum EventView {
    PacketSent(PacketView),
    PacketDropped(PacketView),
}

/// What a relay tells the controller.
#[derive(Clone, Debug, PartialEq, Eq)]
pub enum Event {
    /// The packet was put on an outbound queue.
    PacketSent(Packet),
    /// The fragment was discarded by fault injection.
    PacketDropped(Packet),
}

impl View for Event {
    type V = EventView;

    open spec fn view(&self) -> EventView {
        match *self {
            Event::PacketSent(p) => EventView::PacketSent(p@),
            Event::PacketDropped(p) => EventView::PacketDropped(p@),
        }
    }
}

/// What the controller tells a relay.
#[derive(Clone, Copy, Debug, PartialEq, Eq, Structural)]
pub enum Command {
    Crash,
}

/// Copies a list of node ids.
pub fn duplicate_hops(hops: &Vec<NodeId>) -> (copy: Vec<NodeId>)
    ensures
        copy@ == hops@,
{
    let mut copy: Vec<NodeId> = Vec::new();
    let mut i: usize = 0;
    while i < hops.len()
        invariant
            i <= hops.len(),
            copy@ == hops@.take(i as int),
        decreases hops.len() - i,
    {
        copy.push(hops[i]);
        i += 1;
    }
    copy
}

/// Tells whether two lists of node ids hold the same ids in the same order.
pub fn same_hops(a: &Vec<NodeId>, b: &Vec<NodeId>) -> (same: bool)
    ensures
        same == (a@ == b@),
{
    if a.len() != b.len() {
        return false;
    }
    let mut i: usize = 0;
    while i < a.len()
        invariant
            i <= a.len(),
            a.len() == b.len(),
            a@.take(i as int) == b@.take(i as int),
        decreases a.len() - i,
    {
        if a[i] != b[i] {
            return false;
        }
        assert(a@.take(i + 1) == a@.take(i as int).push(a@[i as int]));
        assert(b@.take(i + 1) == b@.take(i as int).push(b@[i as int]));
        i += 1;
    }
    assert(a@ == a@.take(a.len() as int));
    assert(b@ == b@.take(b.len() as int));
    true
}

/// Copies a flood trace.
pub fn duplicate_trace(trace: &Vec<TraceEntry>) -> (copy: Vec<TraceEntry>)
    ensures
        copy@ == trace@,
{
    let mut copy: Vec<TraceEntry> = Vec::new();
    let mut i: usize = 0;
    while i < trace.len()
        invariant
            i <= trace.len(),
            copy@ == trace@.take(i as int),
        decreases trace.len() - i,
    {
        copy.push(trace[i]);
        i += 1;
    }
    copy
}

/// Tells whether two flood traces hold the same entries in the same order.
pub fn same_trace(a: &Vec<TraceEntry>, b: &Vec<TraceEntry>) -> (same: bool)
    ensures
        same == (a@ == b@),
{
    if a.len() != b.len() {
        return false;
    }
    let mut i: usize = 0;
    while i < a.len()
        invariant
            i <= a.len(),
            a.len() == b.len(),
            a@.take(i as int) == b@.take(i as int),
        decreases a.len() - i,
    {
        if a[i].0 != b[i].0 || a[i].1 != b[i].1 {
            return false;
        }
        assert(a@.take(i + 1) == a@.take(i as int).push(a@[i as int]));
        assert(b@.take(i + 1) == b@.take(i as int).push(b@[i as int]));
        i += 1;
    }
    assert(a@ == a@.take(a.len() as int));
    assert(b@ == b@.take(b.len() as int));
    true
}

impl SourceRoutingHeader {
    /// A header over `hops` with the cursor at `hop_index`.
    pub fn new(hops: Vec<NodeId>, hop_index: usize) -> (header: SourceRoutingHeader)
        ensures
            header@ == (Route { hops: hops@, hop_index: hop_index as nat }),
    {
        SourceRoutingHeader { hop_index, hops }
    }

    /// A header without hops, as flood requests carry it.
    pub fn empty_route() -> (header: SourceRoutingHeader)
        ensures
            header@ == (Route { hops: Seq::empty(), hop_index: 0 }),
    {
        SourceRoutingHeader { hop_index: 0, hops: Vec::new() }
    }

    /// A copy of this header.
    pub fn duplicate(&self) -> (copy: SourceRoutingHeader)
        ensures
            copy@ == self@,
    {
        SourceRoutingHeader { hop_index: self.hop_index, hops: duplicate_hops(&self.hops) }
    }

    /// Tells whether both headers hold the same path and cursor.
    pub fn same_as(&self, other: &SourceRoutingHeader) -> (same: bool)
        ensures
            same == (self@ == other@),
    {
        self.hop_index == other.hop_index && same_hops(&self.hops, &other.hops)
    }

    /// The node behind the one under the cursor, if the path has one.
    pub fn next_hop(&self) -> (next: Option<NodeId>)
        ensures
            next == (if self@.has_next() {
                Some(self@.next())
            } else {
                None
            }),
    {
        if self.hop_index < self.hops.len() && self.hop_index + 1 < self.hops.len() {
            Some(self.hops[self.hop_index + 1])
        } else {
            None
        }
    }

    /// The route of an answer to a packet with this header.
    pub fn reply(&self) -> (header: SourceRoutingHeader)
        ensures
            header@ == self@.reply(),
    {
        let mut hops: Vec<NodeId> = Vec::new();
        if self.hop_index < self.hops.len() {
            let mut left: usize = self.hop_index + 1;
            while left > 0
                invariant
                    left <= self.hop_index + 1 <= self.hops.len(),
                    hops@.len() == self.hop_index + 1 - left,
                    forall|k: int|
                        0 <= k < hops@.len() ==> hops@[k] == self.hops@[self.hop_index - k],
                decreases left,
            {
                left -= 1;
                hops.push(self.hops[left]);
            }
            assert(hops@ == self@.traversed().reverse());
        }
        SourceRoutingHeader { hop_index: 1, hops }
    }
}

impl Fragment {
    /// Tells whether both fragments hold the same numbers and payload.
    pub fn same_as(&self, other: &Fragment) -> (same: bool)
        ensures
            same == (*self == *other),
    {
        if self.fragment_index != other.fragment_index
            || self.total_n_fragments != other.total_n_fragments || self.length != other.length {
            return false;
        }
        let mut i: usize = 0;
        while i < 128
            invariant
                i <= 128,
                forall|k: int| 0 <= k < i ==> self.data@[k] == other.data@[k],
            decreases 128 - i,
        {
            if self.data[i] != other.data[i] {
                return false;
            }
            i += 1;
        }
        assert(self.data@ =~= other.data@);
        assert(self.data =~= other.data);
        true
    }
}

impl FloodRequest {
    /// A copy of this request.
    pub fn duplicate(&self) -> (copy: FloodRequest)
        ensures
            copy@ == self@,
    {
        FloodRequest {
            flood_id: self.flood_id,
            initiator_id: self.initiator_id,
            path_trace: duplicate_trace(&self.path_trace),
        }
    }

    /// Tells whether both requests hold the same ids and trace.
    pub fn same_as(&self, other: &FloodRequest) -> (same: bool)
        ensures
            same == (self@ == other@),
    {
        self.flood_id == other.flood_id && self.initiator_id == other.initiator_id && same_trace(
            &self.path_trace,
            &other.path_trace,
        )
    }
}

impl FloodResponse {
    /// A copy of this response.
    pub fn duplicate(&self) -> (copy: FloodResponse)
        ensures
            copy@ == self@,
    {
        FloodResponse { flood_id: self.flood_id, path_trace: duplicate_trace(&self.path_trace) }
    }

    /// Tells whether both responses hold the same id and trace.
    pub fn same_as(&self, other: &FloodResponse) -> (same: bool)
        ensures
            same == (self@ == other@),
    {
        self.flood_id == other.flood_id && same_trace(&self.path_trace, &other.path_trace)
    }
}

impl PacketType {
    /// A copy of this content.
    pub fn duplicate(&self) -> (copy: PacketType)
        ensures
            copy@ == self@,
    {
        match self {
            PacketType::Fragment(f) => PacketType::Fragment(*f),
            PacketType::Ack(a) => PacketType::Ack(*a),
            PacketType::Nack(n) => PacketType::Nack(*n),
            PacketType::FloodRequest(r) => PacketType::FloodRequest(r.duplicate()),
            PacketType::FloodResponse(r) => PacketType::FloodResponse(r.duplicate()),
        }
    }

    /// Tells whether both are of the same kind and hold the same content.
    pub fn same_as(&self, other: &PacketType) -> (same: bool)
        ensures
            same == (self@ == other@),
    {
        match (self, other) {
            (PacketType::Fragment(a), PacketType::Fragment(b)) => a.same_as(b),
            (PacketType::Ack(a), PacketType::Ack(b)) => a.fragment_index == b.fragment_index,
            (PacketType::Nack(a), PacketType::Nack(b)) => a.fragment_index == b.fragment_index
                && a.nack_type == b.nack_type,
            (PacketType::FloodRequest(a), PacketType::FloodRequest(b)) => a.same_as(b),
            (PacketType::FloodResponse(a), PacketType::FloodResponse(b)) => a.same_as(b),
            _ => false,
        }
    }

    /// The fragment index that a failure report about this content names.
    pub fn fragment_index(&self) -> (index: u64)
        ensures
            index == self@.fragment_index(),
    {
        match self {
            PacketType::Fragment(f) => f.fragment_index,
            PacketType::Ack(a) => a.fragment_index,
            PacketType::Nack(n) => n.fragment_index,
            PacketType::FloodRequest(_) => 0,
            PacketType::FloodResponse(_) => 0,
        }
    }
}

impl Packet {
    /// A packet that carries a fragment.
    pub fn new_fragment(
        routing_header: SourceRoutingHeader,
        session_id: u64,
        fragment: Fragment,
    ) -> (packet: Packet)
        ensures
            packet@ == (PacketView {
                kind: PacketKind::Fragment(fragment),
                route: routing_header@,
                session_id,
            }),
    {
        Packet { pack_type: PacketType::Fragment(fragment), routing_header, session_id }
    }

    /// A packet that acknowledges the fragment with index `fragment_index`.
    pub fn new_ack(routing_header: SourceRoutingHeader, session_id: u64, fragment_index: u64) -> (packet:
        Packet)
        ensures
            packet@ == (PacketView {
                kind: PacketKind::Ack(Ack { fragment_index }),
                route: routing_header@,
                session_id,
            }),
    {
        Packet { pack_type: PacketType::Ack(Ack { fragment_index }), routing_header, session_id }
    }

    /// A packet that carries a failure report.
    pub fn new_nack(routing_header: SourceRoutingHeader, session_id: u64, nack: Nack) -> (packet:
        Packet)
        ensures
            packet@ == (PacketView {
                kind: PacketKind::Nack(nack),
                route: routing_header@,
                session_id,
            }),
    {
        Packet { pack_type: PacketType::Nack(nack), routing_header, session_id }
    }

    /// A packet that carries a flood request.
    pub fn new_flood_request(
        routing_header: SourceRoutingHeader,
        session_id: u64,
        flood_request: FloodRequest,
    ) -> (packet: Packet)
        ensures
            packet@ == (PacketView {
                kind: PacketKind::FloodRequest(flood_request@),
                route: routing_header@,
                session_id,
            }),
    {
        Packet { pack_type: PacketType::FloodRequest(flood_request), routing_header, session_id }
    }

    /// A packet that carries a flood response.
    pub fn new_flood_response(
        routing_header: SourceRoutingHeader,
        session_id: u64,
        flood_response: FloodResponse,
    ) -> (packet: Packet)
        ensures
            packet@ == (PacketView {
                kind: PacketKind::FloodResponse(flood_response@),
                route: routing_header@,
                session_id,
            }),
    {
        Packet { pack_type: PacketType::FloodResponse(flood_response), routing_header, session_id }
    }

    /// A copy of this packet.
    pub fn duplicate(&self) -> (copy: Packet)
        ensures
            copy@ == self@,
    {
        Packet {
            pack_type: self.pack_type.duplicate(),
            routing_header: self.routing_header.duplicate(),
            session_id: self.session_id,
        }
    }

    /// Tells whether both packets hold the same content, route and session.
    pub fn same_as(&self, other: &Packet) -> (same: bool)
        ensures
            same == (self@ == other@),
    {
        self.session_id == other.session_id && self.routing_header.same_as(&other.routing_header)
            && self.pack_type.same_as(&other.pack_type)
    }
}

impl Event {
    /// A copy of this event.
    pub fn duplicate(&self) -> (copy: Event)
        ensures
            copy@ == self@,
    {
        match self {
            Event::PacketSent(p) => Event::PacketSent(p.duplicate()),
            Event::PacketDropped(p) => Event::PacketDropped(p.duplicate()),
        }
    }

    /// Tells whether both events are of the same kind and about the same packet.
    pub fn same_as(&self, other: &Event) -> (same: bool)
        ensures
            same == (self@ == other@),
    {
        match (self, other) {
            (Event::PacketSent(a), Event::PacketSent(b)) => a.same_as(b),
            (Event::PacketDropped(a), Event::PacketDropped(b)) => a.same_as(b),
            _ => false,
        }
    }
}

} // verus!
