//! Scenarios that test how relays handle source-routed packets: fragments
//! that are forwarded, discarded or misaddressed, and the acknowledgements
//! and failure reports that travel back.

use crate::fault::{DropRate, DROP_SCALE};
use crate::harness::{
    duplicate_messages, Message, MessageView, Probe, RelaySetupView, Scenario, ScenarioView,
    StepView,
};
use crate::packet::{
    Ack, Event, EventView, Fragment, Nack, NackType, NodeId, Packet, PacketKind, PacketView,
    Route, SourceRoutingHeader,
};
use vstd::prelude::*;

verus! {

/// The payload in which every byte is `byte`.
pub open spec fn filled(byte: u8) -> [u8; 128] {
    choose|data: [u8; 128]| data@ == Seq::new(128, |i: int| byte)
}

/// The fragment of the scenarios: the only one of its message, with a
/// payload of ones, in session 1.
pub open spec fn sample_packet(hop_index: nat, hops: Seq<NodeId>) -> PacketView {
    PacketView {
        kind: PacketKind::Fragment(
            Fragment { fragment_index: 1, total_n_fragments: 1, length: 128, data: filled(1) },
        ),
        route: Route { hops, hop_index },
        session_id: 1,
    }
}

/// The acknowledgement of the scenarios: for fragment 1, in session 1.
pub open spec fn ack(hop_index: nat, hops: Seq<NodeId>) -> PacketView {
    PacketView {
        kind: PacketKind::Ack(Ack { fragment_index: 1 }),
        route: Route { hops, hop_index },
        session_id: 1,
    }
}

/// The failure report of the scenarios: for fragment 1, in session 1.
pub open spec fn nack(hop_index: nat, hops: Seq<NodeId>, nack_type: NackType) -> PacketView {
    PacketView {
        kind: PacketKind::Nack(Nack { fragment_index: 1, nack_type }),
        route: Route { hops, hop_index },
        session_id: 1,
    }
}

/// A fragment on the given route. By convention the ids 1 to 10 stand for
/// clients, 11 to 20 for relays and 21 to 30 for servers.
pub fn create_sample_packet(hop_index: usize, hops: Vec<NodeId>) -> (packet: Packet)
    ensures
        packet@ == sample_packet(hop_index as nat, hops@),
{
    let data = [1u8; 128];
    proof {
        assert(data@ =~= Seq::new(128, |i: int| 1u8));
        assert(filled(1)@ == data@);
        assert(filled(1) =~= data);
    }
    Packet::new_fragment(
        SourceRoutingHeader { hop_index, hops },
        1,
        Fragment { fragment_index: 1, total_n_fragments: 1, length: 128, data },
    )
}

/// An acknowledgement on the given route.
pub fn get_ack(hop_index: usize, hops: Vec<NodeId>) -> (packet: Packet)
    ensures
        packet@ == ack(hop_index as nat, hops@),
{
    Packet::new_ack(SourceRoutingHeader { hop_index, hops }, 1, 1)
}

/// A failure report of the given type on the given route.
pub fn get_nack(hop_index: usize, hops: Vec<NodeId>, nack_type: NackType) -> (packet: Packet)
    ensures
        packet@ == nack(hop_index as nat, hops@, nack_type),
{
    Packet::new_nack(
        SourceRoutingHeader { hop_index, hops },
        1,
        Nack { fragment_index: 1, nack_type },
    )
}

/// The scenario of [`generic_fragment_forward`].
pub open spec fn fragment_forward() -> ScenarioView {
    let hops = seq![1u8, 11u8, 12u8, 21u8];
    ScenarioView {
        relays: seq![RelaySetupView { id: 11, neighbors: seq![12u8], drop_threshold: 0 }],
        script: seq![
            StepView::Send { to: 11, packet: sample_packet(1, hops) },
            StepView::Expect {
                at: Probe::Inbox(12),
                any_of: seq![MessageView::Packet(sample_packet(2, hops))],
            },
            StepView::Expect {
                at: Probe::Events,
                any_of: seq![MessageView::Event(EventView::PacketSent(sample_packet(2, hops)))],
            },
        ],
    }
}

/// A fragment is forwarded to the next node of its route, and the controller
/// is told.
///
/// Relay 11 never discards and has node 12 as its only neighbor. It is sent
/// a fragment on the route 1, 11, 12, 21 with the cursor on itself. Node 12
/// expects the fragment with the cursor moved on, and the controller the
/// report that this packet was sent.
pub fn generic_fragment_forward() -> (scenario: Scenario)
    ensures
        scenario@ == fragment_forward(),
{
    let mut scenario = Scenario::new();
    scenario.relay(11, vec![12], DropRate::never());
    let mut msg = create_sample_packet(1, vec![1, 11, 12, 21]);
    scenario.send(11, msg.duplicate());
    msg.routing_header.hop_index = 2;
    scenario.expect(Probe::Inbox(12), vec![Message::Packet(msg.duplicate())]);
    scenario.expect(Probe::Events, vec![Message::Event(Event::PacketSent(msg))]);
    assert(scenario@ =~~= fragment_forward());
    scenario
}

/// The scenario of [`generic_fragment_drop`].
pub open spec fn fragment_drop() -> ScenarioView {
    let fragment = sample_packet(1, seq![1u8, 11u8, 12u8, 21u8]);
    let report = nack(1, seq![11u8, 1u8], NackType::Dropped);
    let events = seq![
        MessageView::Event(EventView::PacketDropped(fragment)),
        MessageView::Event(EventView::PacketSent(report)),
    ];
    ScenarioView {
        relays: seq![
            RelaySetupView {
                id: 11,
                neighbors: seq![12u8, 1u8],
                drop_threshold: DROP_SCALE as nat,
            },
        ],
        script: seq![
            StepView::Send { to: 11, packet: fragment },
            StepView::Expect { at: Probe::Inbox(1), any_of: seq![MessageView::Packet(report)] },
            StepView::Expect { at: Probe::Events, any_of: events },
            StepView::Expect { at: Probe::Events, any_of: events },
        ],
    }
}

/// A relay that discards a fragment reports this to the sender and to the
/// controller.
///
/// Relay 11 always discards and has the neighbors 12 and 1. It is sent a
/// fragment on the route 1, 11, 12, 21 with the cursor on itself. Client 1
/// expects a failure report of type `Dropped` on the route from the relay
/// back to it. The controller listens twice: each time it expects the
/// report that the fragment was discarded or the report that the failure
/// report was sent.
pub fn generic_fragment_drop() -> (scenario: Scenario)
    ensures
        scenario@ == fragment_drop(),
{
    let mut scenario = Scenario::new();
    scenario.relay(11, vec![12, 1], DropRate::always());
    let msg = create_sample_packet(1, vec![1, 11, 12, 21]);
    scenario.send(11, msg.duplicate());
    let nack_packet = get_nack(1, vec![11, 1], NackType::Dropped);
    scenario.expect(Probe::Inbox(1), vec![Message::Packet(nack_packet.duplicate())]);
    let events = vec![
        Message::Event(Event::PacketDropped(msg)),
        Message::Event(Event::PacketSent(nack_packet)),
    ];
    scenario.expect(Probe::Events, duplicate_messages(&events));
    scenario.expect(Probe::Events, events);
    assert(scenario@ =~~= fragment_drop());
    scenario
}

/// The scenario of [`generic_chain_fragment_drop`].
pub open spec fn chain_fragment_drop() -> ScenarioView {
    ScenarioView {
        relays: seq![
            RelaySetupView { id: 11, neighbors: seq![12u8, 1u8], drop_threshold: 0 },
            RelaySetupView {
                id: 12,
                neighbors: seq![11u8, 21u8],
                drop_threshold: DROP_SCALE as nat,
            },
        ],
        script: seq![
            StepView::Send { to: 11, packet: sample_packet(1, seq![1u8, 11u8, 12u8, 21u8]) },
            StepView::Expect {
                at: Probe::Inbox(1),
                any_of: seq![
                    MessageView::Packet(nack(2, seq![12u8, 11u8, 1u8], NackType::Dropped)),
                ],
            },
        ],
    }
}

/// A fragment that the second relay of a chain discards is reported back
/// through the first.
///
/// Relay 11 never discards and has the neighbors 12 and 1; relay 12 always
/// discards and has the neighbors 11 and 21. Relay 11 is sent a fragment on
/// the route 1, 11, 12, 21. Client 1 expects the failure report of relay 12,
/// of type `Dropped`, as relay 11 has forwarded it.
pub fn generic_chain_fragment_drop() -> (scenario: Scenario)
    ensures
        scenario@ == chain_fragment_drop(),
{
    let mut scenario = Scenario::new();
    scenario.relay(11, vec![12, 1], DropRate::never());
    scenario.relay(12, vec![11, 21], DropRate::always());
    scenario.send(11, create_sample_packet(1, vec![1, 11, 12, 21]));
    scenario.expect(
        Probe::Inbox(1),
        vec![Message::Packet(get_nack(2, vec![12, 11, 1], NackType::Dropped))],
    );
    assert(scenario@ =~~= chain_fragment_drop());
    scenario
}

/// The scenario of [`generic_chain_fragment_ack`].
pub open spec fn chain_fragment_ack() -> ScenarioView {
    let forth = seq![1u8, 11u8, 12u8, 21u8];
    let back = seq![21u8, 12u8, 11u8, 1u8];
    ScenarioView {
        relays: seq![
            RelaySetupView { id: 11, neighbors: seq![12u8, 1u8], drop_threshold: 0 },
            RelaySetupView { id: 12, neighbors: seq![11u8, 21u8], drop_threshold: 0 },
        ],
        script: seq![
            StepView::Send { to: 11, packet: sample_packet(1, forth) },
            StepView::Expect {
                at: Probe::Inbox(21),
                any_of: seq![MessageView::Packet(sample_packet(3, forth))],
            },
            StepView::Send { to: 12, packet: ack(1, back) },
            StepView::Expect {
                at: Probe::Inbox(1),
                any_of: seq![MessageView::Packet(ack(3, back))],
            },
        ],
    }
}

/// A fragment reaches the server through a chain of relays, and the
/// acknowledgement comes back through it.
///
/// The relays 11 and 12 never discard; relay 11 has the neighbors 12 and 1,
/// relay 12 the neighbors 11 and 21. Relay 11 is sent a fragment on the
/// route 1, 11, 12, 21, and server 21 expects it with the cursor on itself.
/// Then relay 12 is sent the acknowledgement of the server on the route
/// back, and client 1 expects it with the cursor on itself.
pub fn generic_chain_fragment_ack() -> (scenario: Scenario)
    ensures
        scenario@ == chain_fragment_ack(),
{
    let mut scenario = Scenario::new();
    scenario.relay(11, vec![12, 1], DropRate::never());
    scenario.relay(12, vec![11, 21], DropRate::never());
    let mut msg = create_sample_packet(1, vec![1, 11, 12, 21]);
    scenario.send(11, msg.duplicate());
    msg.routing_header.hop_index = 3;
    scenario.expect(Probe::Inbox(21), vec![Message::Packet(msg)]);
    scenario.send(12, get_ack(1, vec![21, 12, 11, 1]));
    scenario.expect(Probe::Inbox(1), vec![Message::Packet(get_ack(3, vec![21, 12, 11, 1]))]);
    assert(scenario@ =~~= chain_fragment_ack());
    scenario
}

/// The scenario of [`generic_ack_forward`].
pub open spec fn ack_forward() -> ScenarioView {
    let hops = seq![1u8, 11u8, 12u8, 21u8];
    ScenarioView {
        relays: seq![RelaySetupView { id: 11, neighbors: seq![12u8], drop_threshold: 0 }],
        script: seq![
            StepView::Send { to: 11, packet: ack(1, hops) },
            StepView::Expect {
                at: Probe::Inbox(12),
                any_of: seq![MessageView::Packet(ack(2, hops))],
            },
            StepView::Expect {
                at: Probe::Events,
                any_of: seq![MessageView::Event(EventView::PacketSent(ack(2, hops)))],
            },
        ],
    }
}

/// An acknowledgement is forwarded to the next node of its route, and the
/// controller is told.
///
/// Relay 11 has node 12 as its only neighbor. It is sent an acknowledgement
/// on the route 1, 11, 12, 21 with the cursor on itself. Node 12 expects it
/// with the cursor moved on, and the controller the report that this packet
/// was sent.
pub fn generic_ack_forward() -> (scenario: Scenario)
    ensures
        scenario@ == ack_forward(),
{
    let mut scenario = Scenario::new();
    scenario.relay(11, vec![12], DropRate::never());
    let mut ack = get_ack(1, vec![1, 11, 12, 21]);
    scenario.send(11, ack.duplicate());
    ack.routing_header.hop_index = 2;
    scenario.expect(Probe::Inbox(12), vec![Message::Packet(ack.duplicate())]);
    scenario.expect(Probe::Events, vec![Message::Event(Event::PacketSent(ack))]);
    assert(scenario@ =~~= ack_forward());
    scenario
}

/// The scenario of [`generic_nack_forward`].
pub open spec fn nack_forward() -> ScenarioView {
    let hops = seq![1u8, 11u8, 12u8, 21u8];
    ScenarioView {
        relays: seq![RelaySetupView { id: 11, neighbors: seq![12u8], drop_threshold: 0 }],
        script: seq![
            StepView::Send { to: 11, packet: nack(1, hops, NackType::Dropped) },
            StepView::Expect {
                at: Probe::Inbox(12),
                any_of: seq![MessageView::Packet(nack(2, hops, NackType::Dropped))],
            },
            StepView::Expect {
                at: Probe::Events,
                any_of: seq![
                    MessageView::Event(EventView::PacketSent(nack(2, hops, NackType::Dropped))),
                ],
            },
        ],
    }
}

/// A failure report is forwarded to the next node of its route, and the
/// controller is told.
///
/// Relay 11 has node 12 as its only neighbor. It is sent a failure report on
/// the route 1, 11, 12, 21 with the cursor on itself. Node 12 expects it
/// with the cursor moved on, and the controller the report that this packet
/// was sent.
pub fn generic_nack_forward() -> (scenario: Scenario)
    ensures
        scenario@ == nack_forward(),
{
    let mut scenario = Scenario::new();
    scenario.relay(11, vec![12], DropRate::never());
    let mut nack = get_nack(1, vec![1, 11, 12, 21], NackType::Dropped);
    scenario.send(11, nack.duplicate());
    nack.routing_header.hop_index = 2;
    scenario.expect(Probe::Inbox(12), vec![Message::Packet(nack.duplicate())]);
    scenario.expect(Probe::Events, vec![Message::Event(Event::PacketSent(nack))]);
    assert(scenario@ =~~= nack_forward());
    scenario
}

/// The scenario of [`generic_destination_is_drone`].
pub open spec fn destination_is_drone() -> ScenarioView {
    ScenarioView {
        relays: seq![RelaySetupView { id: 11, neighbors: seq![1u8], drop_threshold: 0 }],
        script: seq![
            StepView::Send { to: 11, packet: sample_packet(1, seq![1u8, 11u8]) },
            StepView::Expect {
                at: Probe::Inbox(1),
                any_of: seq![
                    MessageView::Packet(
                        nack(1, seq![11u8, 1u8], NackType::DestinationIsDrone),
                    ),
                ],
            },
        ],
    }
}

/// A fragment whose route ends at a relay is answered with a failure report.
///
/// Relay 11 has client 1 as its only neighbor. It is sent a fragment on the
/// route 1, 11, which ends at the relay. The client expects a failure report
/// of type `DestinationIsDrone` on the route from the relay back to it.
pub fn generic_destination_is_drone() -> (scenario: Scenario)
    ensures
        scenario@ == destination_is_drone(),
{
    let mut scenario = Scenario::new();
    scenario.relay(11, vec![1], DropRate::never());
    scenario.send(11, create_sample_packet(1, vec![1, 11]));
    scenario.expect(
        Probe::Inbox(1),
        vec![Message::Packet(get_nack(1, vec![11, 1], NackType::DestinationIsDrone))],
    );
    assert(scenario@ =~~= destination_is_drone());
    scenario
}

} // verus!
