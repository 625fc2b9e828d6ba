//! Scenarios that test how relays handle floods: requests that are new,
//! requests that are known, and responses on their way back.

use crate::fault::DropRate;
use crate::harness::{
    duplicate_messages, Message, MessageView, Probe, RelaySetupView, Scenario, ScenarioView,
    StepView,
};
use crate::packet::{
    FloodRequest, FloodRequestView, FloodResponse, FloodResponseView, NodeId, NodeType, Packet,
    PacketKind, PacketType, PacketView, Route, SourceRoutingHeader, TraceEntry,
};
use vstd::prelude::*;

verus! {

/// The flood request of the scenarios: no route, session 1.
pub open spec fn sample_flood_req(
    flood_id: u64,
    initiator_id: NodeId,
    path_trace: Seq<TraceEntry>,
) -> PacketView {
    PacketView {
        kind: PacketKind::FloodRequest(FloodRequestView { flood_id, initiator_id, path_trace }),
        route: Route { hops: Seq::empty(), hop_index: 0 },
        session_id: 1,
    }
}

/// The flood response of the scenarios: session 1.
pub open spec fn flood_res(flood_id: u64, path_trace: Seq<TraceEntry>, route: Route) -> PacketView {
    PacketView {
        kind: PacketKind::FloodResponse(FloodResponseView { flood_id, path_trace }),
        route,
        session_id: 1,
    }
}

/// A flood request as a client or a relay sends it: without a route, in
/// session 1.
pub fn create_sample_flood_req(
    flood_id: u64,
    initiator_id: NodeId,
    path_trace: Vec<TraceEntry>,
) -> (packet: Packet)
    ensures
        packet@ == sample_flood_req(flood_id, initiator_id, path_trace@),
{
    Packet {
        pack_type: PacketType::FloodRequest(FloodRequest { flood_id, initiator_id, path_trace }),
        routing_header: SourceRoutingHeader { hop_index: 0, hops: Vec::new() },
        session_id: 1,
    }
}

/// A flood response on the given route, in session 1.
pub fn create_flood_res(
    flood_id: u64,
    path_trace: Vec<TraceEntry>,
    routing_header: SourceRoutingHeader,
) -> (packet: Packet)
    ensures
        packet@ == flood_res(flood_id, path_trace@, routing_header@),
{
    let flood_res = FloodResponse { flood_id, path_trace };
    Packet::new_flood_response(routing_header, 1, flood_res)
}

/// The scenario of [`generic_new_flood`].
pub open spec fn new_flood() -> ScenarioView {
    ScenarioView {
        relays: seq![RelaySetupView { id: 11, neighbors: seq![1u8], drop_threshold: 0 }],
        script: seq![
            StepView::Send {
                to: 11,
                packet: sample_flood_req(1, 1, seq![(1u8, NodeType::Client)]),
            },
            StepView::Expect {
                at: Probe::Inbox(1),
                any_of: seq![
                    MessageView::Packet(
                        flood_res(
                            1,
                            seq![(1u8, NodeType::Client), (11u8, NodeType::Relay)],
                            Route { hops: seq![11u8, 1u8], hop_index: 1 },
                        ),
                    ),
                ],
            },
        ],
    }
}

/// A relay whose only neighbor is the sender of a flood request answers the
/// request itself.
///
/// Relay 11 has client 1 as its only neighbor. The client sends it a flood
/// request that it has started, and expects the response with the relay
/// added to the trace, on the route from the relay back to the client.
pub fn generic_new_flood() -> (scenario: Scenario)
    ensures
        scenario@ == new_flood(),
{
    let mut scenario = Scenario::new();
    scenario.relay(11, vec![1], DropRate::never());
    scenario.send(11, create_sample_flood_req(1, 1, vec![(1, NodeType::Client)]));
    let flood_res = create_flood_res(
        1,
        vec![(1, NodeType::Client), (11, NodeType::Relay)],
        SourceRoutingHeader::new(vec![11, 1], 1),
    );
    scenario.expect(Probe::Inbox(1), vec![Message::Packet(flood_res)]);
    assert(scenario@ =~~= new_flood());
    scenario
}

/// The scenario of [`generic_new_flood_no_initiator`].
pub open spec fn new_flood_no_initiator() -> ScenarioView {
    ScenarioView {
        relays: seq![RelaySetupView { id: 11, neighbors: seq![1u8], drop_threshold: 0 }],
        script: seq![
            StepView::Send { to: 11, packet: sample_flood_req(1, 1, Seq::empty()) },
            StepView::Expect {
                at: Probe::Inbox(1),
                any_of: seq![
                    MessageView::Packet(
                        flood_res(
                            1,
                            seq![(11u8, NodeType::Relay)],
                            Route { hops: seq![11u8, 1u8], hop_index: 1 },
                        ),
                    ),
                ],
            },
        ],
    }
}

/// A flood request whose trace is empty is taken to come from its
/// initiator.
///
/// Relay 11 has client 1 as its only neighbor. The client sends it a flood
/// request of its own without having entered itself in the trace, and
/// expects a response whose trace holds the relay alone and whose route
/// leads from the relay to the client.
pub fn generic_new_flood_no_initiator() -> (scenario: Scenario)
    ensures
        scenario@ == new_flood_no_initiator(),
{
    let mut scenario = Scenario::new();
    scenario.relay(11, vec![1], DropRate::never());
    scenario.send(11, create_sample_flood_req(1, 1, Vec::new()));
    let flood_res = create_flood_res(
        1,
        vec![(11, NodeType::Relay)],
        SourceRoutingHeader::new(vec![11, 1], 1),
    );
    scenario.expect(Probe::Inbox(1), vec![Message::Packet(flood_res)]);
    assert(scenario@ =~~= new_flood_no_initiator());
    scenario
}

/// The response that the client of [`generic_new_flood_neighbours`] and of
/// [`generic_known_flood_req`] expects from the relay `last` behind relay 11.
pub open spec fn res_behind_11(last: NodeId) -> PacketView {
    flood_res(
        1,
        seq![(1u8, NodeType::Client), (11u8, NodeType::Relay), (last, NodeType::Relay)],
        Route { hops: seq![last, 11u8, 1u8], hop_index: 2 },
    )
}

/// The scenario of [`generic_new_flood_neighbours`].
pub open spec fn new_flood_neighbours() -> ScenarioView {
    let responses = seq![
        MessageView::Packet(res_behind_11(12)),
        MessageView::Packet(res_behind_11(13)),
    ];
    ScenarioView {
        relays: seq![
            RelaySetupView { id: 11, neighbors: seq![1u8, 12u8, 13u8], drop_threshold: 0 },
            RelaySetupView { id: 12, neighbors: seq![11u8], drop_threshold: 0 },
            RelaySetupView { id: 13, neighbors: seq![11u8], drop_threshold: 0 },
        ],
        script: seq![
            StepView::Send {
                to: 11,
                packet: sample_flood_req(1, 1, seq![(1u8, NodeType::Client)]),
            },
            StepView::Expect { at: Probe::Inbox(1), any_of: responses },
            StepView::Expect { at: Probe::Inbox(1), any_of: responses },
        ],
    }
}

/// A flood request is passed on to all neighbors but its sender, and their
/// responses come back in any order.
///
/// Relay 11 has the neighbors 1, 12 and 13; the relays 12 and 13 have relay
/// 11 as their only neighbor. Client 1 sends relay 11 a flood request and
/// listens twice: each time it expects the response of relay 12 or that of
/// relay 13, forwarded by relay 11.
pub fn generic_new_flood_neighbours() -> (scenario: Scenario)
    ensures
        scenario@ == new_flood_neighbours(),
{
    let mut scenario = Scenario::new();
    scenario.relay(11, vec![1, 12, 13], DropRate::never());
    scenario.relay(12, vec![11], DropRate::never());
    scenario.relay(13, vec![11], DropRate::never());
    scenario.send(11, create_sample_flood_req(1, 1, vec![(1, NodeType::Client)]));
    let flood_res_d12 = create_flood_res(
        1,
        vec![(1, NodeType::Client), (11, NodeType::Relay), (12, NodeType::Relay)],
        SourceRoutingHeader::new(vec![12, 11, 1], 2),
    );
    let flood_res_d13 = create_flood_res(
        1,
        vec![(1, NodeType::Client), (11, NodeType::Relay), (13, NodeType::Relay)],
        SourceRoutingHeader::new(vec![13, 11, 1], 2),
    );
    let responses = vec![Message::Packet(flood_res_d12), Message::Packet(flood_res_d13)];
    scenario.expect(Probe::Inbox(1), duplicate_messages(&responses));
    scenario.expect(Probe::Inbox(1), responses);
    assert(scenario@ =~~= new_flood_neighbours());
    scenario
}

/// The scenario of [`generic_flood_res_forward`].
pub open spec fn flood_res_forward() -> ScenarioView {
    let path_trace = seq![(1u8, NodeType::Client), (2u8, NodeType::Relay)];
    ScenarioView {
        relays: seq![RelaySetupView { id: 2, neighbors: seq![3u8], drop_threshold: 0 }],
        script: seq![
            StepView::Send {
                to: 2,
                packet: flood_res(
                    1,
                    path_trace,
                    Route { hops: seq![1u8, 2u8, 3u8], hop_index: 1 },
                ),
            },
            StepView::Expect {
                at: Probe::Inbox(3),
                any_of: seq![
                    MessageView::Packet(
                        flood_res(
                            1,
                            path_trace,
                            Route { hops: seq![1u8, 2u8, 3u8], hop_index: 2 },
                        ),
                    ),
                ],
            },
        ],
    }
}

/// A flood response is forwarded to the next node of its route, unchanged
/// but for the cursor.
///
/// Relay 2 has node 3 as its only neighbor. It is sent a flood response on
/// the route 1, 2, 3 with the cursor on itself; node 3 expects the same
/// response with the cursor moved on.
pub fn generic_flood_res_forward() -> (scenario: Scenario)
    ensures
        scenario@ == flood_res_forward(),
{
    let mut scenario = Scenario::new();
    scenario.relay(2, vec![3], DropRate::never());
    let flood_res = create_flood_res(
        1,
        vec![(1, NodeType::Client), (2, NodeType::Relay)],
        SourceRoutingHeader::new(vec![1, 2, 3], 1),
    );
    let mut forwarded = flood_res.duplicate();
    forwarded.routing_header.hop_index += 1;
    scenario.send(2, flood_res);
    scenario.expect(Probe::Inbox(3), vec![Message::Packet(forwarded)]);
    assert(scenario@ =~~= flood_res_forward());
    scenario
}

/// The scenario of [`generic_known_flood_req`].
pub open spec fn known_flood_req() -> ScenarioView {
    let request = sample_flood_req(1, 1, seq![(1u8, NodeType::Client)]);
    let responses = seq![
        MessageView::Packet(
            flood_res(
                1,
                seq![(1u8, NodeType::Client), (11u8, NodeType::Relay)],
                Route { hops: seq![11u8, 1u8], hop_index: 1 },
            ),
        ),
        MessageView::Packet(res_behind_11(12)),
    ];
    ScenarioView {
        relays: seq![
            RelaySetupView { id: 11, neighbors: seq![1u8, 12u8], drop_threshold: 0 },
            RelaySetupView { id: 12, neighbors: seq![11u8], drop_threshold: 0 },
        ],
        script: seq![
            StepView::Send { to: 11, packet: request },
            StepView::Pause,
            StepView::Send { to: 11, packet: request },
            StepView::Expect { at: Probe::Inbox(1), any_of: responses },
            StepView::Expect { at: Probe::Inbox(1), any_of: responses },
        ],
    }
}

/// A flood request that a relay has seen before is answered at once and not
/// passed on again.
///
/// Relay 11 has the neighbors 1 and 12; relay 12 has relay 11 as its only
/// neighbor. Client 1 sends relay 11 the same flood request twice, with a
/// pause between, and listens twice: each time it expects the response of
/// relay 12 to the first request or the response of relay 11 to the second.
pub fn generic_known_flood_req() -> (scenario: Scenario)
    ensures
        scenario@ == known_flood_req(),
{
    let mut scenario = Scenario::new();
    scenario.relay(11, vec![1, 12], DropRate::never());
    scenario.relay(12, vec![11], DropRate::never());
    let msg = create_sample_flood_req(1, 1, vec![(1, NodeType::Client)]);
    scenario.send(11, msg.duplicate());
    scenario.pause();
    scenario.send(11, msg);
    let flood_res_d11 = create_flood_res(
        1,
        vec![(1, NodeType::Client), (11, NodeType::Relay)],
        SourceRoutingHeader::new(vec![11, 1], 1),
    );
    let flood_res_d12 = create_flood_res(
        1,
        vec![(1, NodeType::Client), (11, NodeType::Relay), (12, NodeType::Relay)],
        SourceRoutingHeader::new(vec![12, 11, 1], 2),
    );
    let responses = vec![Message::Packet(flood_res_d11), Message::Packet(flood_res_d12)];
    scenario.expect(Probe::Inbox(1), duplicate_messages(&responses));
    scenario.expect(Probe::Inbox(1), responses);
    assert(scenario@ =~~= known_flood_req());
    scenario
}

/// The scenario of [`generic_flood_req_two_initiator`].
pub open spec fn flood_req_two_initiator() -> ScenarioView {
    let passed_on = seq![
        MessageView::Packet(
            sample_flood_req(1, 1, seq![(1u8, NodeType::Client), (11u8, NodeType::Relay)]),
        ),
        MessageView::Packet(
            sample_flood_req(1, 2, seq![(2u8, NodeType::Client), (11u8, NodeType::Relay)]),
        ),
    ];
    ScenarioView {
        relays: seq![RelaySetupView { id: 11, neighbors: seq![12u8], drop_threshold: 0 }],
        script: seq![
            StepView::Send {
                to: 11,
                packet: sample_flood_req(1, 1, seq![(1u8, NodeType::Client)]),
            },
            StepView::Send {
                to: 11,
                packet: sample_flood_req(1, 2, seq![(2u8, NodeType::Client)]),
            },
            StepView::Expect { at: Probe::Inbox(12), any_of: passed_on },
            StepView::Expect { at: Probe::Inbox(12), any_of: passed_on },
        ],
    }
}

/// Floods of two initiators under the same flood id are both passed on.
///
/// Relay 11 has node 12 as its only neighbor. The clients 1 and 2 each send
/// it a flood request with flood id 1. Node 12 listens twice: each time it
/// expects one of the two requests, with relay 11 added to its trace.
pub fn generic_flood_req_two_initiator() -> (scenario: Scenario)
    ensures
        scenario@ == flood_req_two_initiator(),
{
    let mut scenario = Scenario::new();
    scenario.relay(11, vec![12], DropRate::never());
    scenario.send(11, create_sample_flood_req(1, 1, vec![(1, NodeType::Client)]));
    scenario.send(11, create_sample_flood_req(1, 2, vec![(2, NodeType::Client)]));
    let expected_d12 = create_sample_flood_req(
        1,
        1,
        vec![(1, NodeType::Client), (11, NodeType::Relay)],
    );
    let expected_d12_2 = create_sample_flood_req(
        1,
        2,
        vec![(2, NodeType::Client), (11, NodeType::Relay)],
    );
    let passed_on = vec![Message::Packet(expected_d12), Message::Packet(expected_d12_2)];
    scenario.expect(Probe::Inbox(12), duplicate_messages(&passed_on));
    scenario.expect(Probe::Inbox(12), passed_on);
    assert(scenario@ =~~= flood_req_two_initiator());
    scenario
}

} // verus!
