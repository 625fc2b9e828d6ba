use relay_net::fault::DropRate;
use relay_net::flood_generics::{
    create_flood_res, create_sample_flood_req, generic_flood_req_two_initiator,
    generic_flood_res_forward, generic_known_flood_req, generic_new_flood,
    generic_new_flood_neighbours, generic_new_flood_no_initiator,
};
use relay_net::fragment_generics::{
    create_sample_packet, generic_ack_forward, generic_chain_fragment_ack,
    generic_chain_fragment_drop, generic_destination_is_drone, generic_fragment_drop,
    generic_fragment_forward, generic_nack_forward, get_ack, get_nack,
};
use relay_net::harness::{
    Directive, Failure, Harness, Message, Outcome, Probe, RelaySetup, Scenario, Step,
};
use relay_net::network::{run, Network};
use relay_net::packet::{
    Ack, Command, Event, FloodRequest, FloodResponse, Fragment, Nack, NackType, NodeType, Packet,
    PacketType, SourceRoutingHeader,
};
use relay_net::sc_generics::{generic_handle_crash, generic_receive_sc_command};

const FUEL: usize = 1000;

fn setup(id: u8, neighbors: Vec<u8>, drop_rate: DropRate) -> RelaySetup {
    RelaySetup { id, neighbors, drop_rate }
}

fn passes(scenario: &Scenario) {
    for draw in [0, 1, 77, u32::MAX] {
        assert_eq!(run(scenario, FUEL, draw), Ok(()));
    }
}

#[test]
fn sample_packets_hold_what_the_scenarios_send() {
    assert_eq!(
        create_sample_flood_req(1, 2, vec![(2, NodeType::Client)]),
        Packet {
            pack_type: PacketType::FloodRequest(FloodRequest {
                flood_id: 1,
                initiator_id: 2,
                path_trace: vec![(2, NodeType::Client)],
            }),
            routing_header: SourceRoutingHeader { hop_index: 0, hops: vec![] },
            session_id: 1,
        }
    );
    assert_eq!(
        create_flood_res(
            3,
            vec![(2, NodeType::Client)],
            SourceRoutingHeader { hop_index: 1, hops: vec![11, 2] }
        ),
        Packet {
            pack_type: PacketType::FloodResponse(FloodResponse {
                flood_id: 3,
                path_trace: vec![(2, NodeType::Client)],
            }),
            routing_header: SourceRoutingHeader { hop_index: 1, hops: vec![11, 2] },
            session_id: 1,
        }
    );
    assert_eq!(
        create_sample_packet(1, vec![1, 11]),
        Packet {
            pack_type: PacketType::Fragment(Fragment {
                fragment_index: 1,
                total_n_fragments: 1,
                length: 128,
                data: [1; 128],
            }),
            routing_header: SourceRoutingHeader { hop_index: 1, hops: vec![1, 11] },
            session_id: 1,
        }
    );
    assert_eq!(
        get_ack(2, vec![1, 11]),
        Packet {
            pack_type: PacketType::Ack(Ack { fragment_index: 1 }),
            routing_header: SourceRoutingHeader { hop_index: 2, hops: vec![1, 11] },
            session_id: 1,
        }
    );
    assert_eq!(
        get_nack(2, vec![1, 11], NackType::ErrorInRouting),
        Packet {
            pack_type: PacketType::Nack(Nack {
                fragment_index: 1,
                nack_type: NackType::ErrorInRouting
            }),
            routing_header: SourceRoutingHeader { hop_index: 2, hops: vec![1, 11] },
            session_id: 1,
        }
    );
}

#[test]
fn new_flood_scenario_is_as_described() {
    let scenario = generic_new_flood();
    assert_eq!(scenario.relays, vec![setup(11, vec![1], DropRate::never())]);
    assert_eq!(
        scenario.script,
        vec![
            Step::Send {
                to: 11,
                packet: create_sample_flood_req(1, 1, vec![(1, NodeType::Client)])
            },
            Step::Expect {
                at: Probe::Inbox(1),
                any_of: vec![Message::Packet(create_flood_res(
                    1,
                    vec![(1, NodeType::Client), (11, NodeType::Relay)],
                    SourceRoutingHeader { hop_index: 1, hops: vec![11, 1] },
                ))],
            },
        ]
    );
}

#[test]
fn fragment_drop_scenario_is_as_described() {
    let scenario = generic_fragment_drop();
    assert_eq!(scenario.relays, vec![setup(11, vec![12, 1], DropRate::always())]);
    let fragment = create_sample_packet(1, vec![1, 11, 12, 21]);
    let report = get_nack(1, vec![11, 1], NackType::Dropped);
    let events = vec![
        Message::Event(Event::PacketDropped(fragment.clone())),
        Message::Event(Event::PacketSent(report.clone())),
    ];
    assert_eq!(
        scenario.script,
        vec![
            Step::Send { to: 11, packet: fragment },
            Step::Expect { at: Probe::Inbox(1), any_of: vec![Message::Packet(report)] },
            Step::Expect { at: Probe::Events, any_of: events.clone() },
            Step::Expect { at: Probe::Events, any_of: events },
        ]
    );
}

#[test]
fn known_flood_scenario_pauses_between_its_requests() {
    let scenario = generic_known_flood_req();
    assert_eq!(
        scenario.relays,
        vec![setup(11, vec![1, 12], DropRate::never()), setup(12, vec![11], DropRate::never())]
    );
    assert_eq!(scenario.script.len(), 5);
    assert_eq!(scenario.script[0], scenario.script[2]);
    assert_eq!(scenario.script[1], Step::Pause);
    assert_eq!(scenario.script[3], scenario.script[4]);
}

#[test]
fn command_scenarios_issue_a_crash_and_expect_it() {
    let expected = vec![
        Step::Command(Command::Crash),
        Step::Expect { at: Probe::Commands, any_of: vec![Message::Command(Command::Crash)] },
    ];
    assert_eq!(generic_receive_sc_command().script, expected);
    assert_eq!(generic_handle_crash().script, expected);
    assert_eq!(
        generic_handle_crash().relays,
        vec![setup(11, vec![12], DropRate::never())]
    );
}

#[test]
fn new_flood_passes() {
    passes(&generic_new_flood());
}

#[test]
fn new_flood_no_initiator_passes() {
    passes(&generic_new_flood_no_initiator());
}

#[test]
fn new_flood_neighbours_passes() {
    passes(&generic_new_flood_neighbours());
}

#[test]
fn flood_res_forward_passes() {
    passes(&generic_flood_res_forward());
}

#[test]
fn known_flood_req_passes() {
    passes(&generic_known_flood_req());
}

#[test]
fn flood_req_two_initiator_passes() {
    passes(&generic_flood_req_two_initiator());
}

#[test]
fn fragment_forward_passes() {
    passes(&generic_fragment_forward());
}

#[test]
fn fragment_drop_passes() {
    passes(&generic_fragment_drop());
}

#[test]
fn chain_fragment_drop_passes() {
    passes(&generic_chain_fragment_drop());
}

#[test]
fn chain_fragment_ack_passes() {
    passes(&generic_chain_fragment_ack());
}

#[test]
fn ack_forward_passes() {
    passes(&generic_ack_forward());
}

#[test]
fn nack_forward_passes() {
    passes(&generic_nack_forward());
}

#[test]
fn destination_is_drone_passes() {
    passes(&generic_destination_is_drone());
}

#[test]
fn receive_sc_command_passes() {
    passes(&generic_receive_sc_command());
}

#[test]
fn handle_crash_passes() {
    passes(&generic_handle_crash());
}

#[test]
fn dead_end_flood_is_answered_to_the_client() {
    let mut network = Network::new(&vec![setup(11, vec![1], DropRate::never())]);
    network.send(
        11,
        Packet {
            pack_type: PacketType::FloodRequest(FloodRequest {
                flood_id: 1,
                initiator_id: 1,
                path_trace: vec![(1, NodeType::Client)],
            }),
            routing_header: SourceRoutingHeader { hop_index: 0, hops: vec![] },
            session_id: 1,
        },
    );
    network.settle(FUEL, 0);
    assert!(network.is_quiet());
    let expected = Packet {
        pack_type: PacketType::FloodResponse(FloodResponse {
            flood_id: 1,
            path_trace: vec![(1, NodeType::Client), (11, NodeType::Relay)],
        }),
        routing_header: SourceRoutingHeader { hop_index: 1, hops: vec![11, 1] },
        session_id: 1,
    };
    assert_eq!(network.listen(Probe::Inbox(1)), Some(Message::Packet(expected.clone())));
    assert_eq!(network.listen(Probe::Inbox(1)), None);
    assert_eq!(network.listen(Probe::Events), Some(Message::Event(Event::PacketSent(expected))));
    assert_eq!(network.listen(Probe::Events), None);
}

#[test]
fn fan_out_brings_one_response_per_branch() {
    let mut network = Network::new(&vec![
        setup(11, vec![1, 12, 13], DropRate::never()),
        setup(12, vec![11], DropRate::never()),
        setup(13, vec![11], DropRate::never()),
    ]);
    network.send(11, create_sample_flood_req(1, 1, vec![(1, NodeType::Client)]));
    network.settle(FUEL, 0);
    let mut last_hops = vec![];
    for _ in 0..2 {
        match network.listen(Probe::Inbox(1)) {
            Some(Message::Packet(Packet {
                pack_type: PacketType::FloodResponse(response),
                routing_header,
                session_id: 1,
            })) => {
                let last = response.path_trace[2].0;
                assert_eq!(response.flood_id, 1);
                assert_eq!(
                    response.path_trace,
                    vec![(1, NodeType::Client), (11, NodeType::Relay), (last, NodeType::Relay)]
                );
                assert_eq!(routing_header.hops, vec![last, 11, 1]);
                assert_eq!(routing_header.hop_index, 2);
                last_hops.push(last);
            },
            other => panic!("no flood response: {:?}", other),
        }
    }
    last_hops.sort();
    assert_eq!(last_hops, vec![12, 13]);
    assert_eq!(network.listen(Probe::Inbox(1)), None);
}

#[test]
fn chained_drop_reaches_the_client_as_nack() {
    let mut network = Network::new(&vec![
        setup(11, vec![12, 1], DropRate::never()),
        setup(12, vec![11, 21], DropRate::always()),
    ]);
    network.send(11, create_sample_packet(1, vec![1, 11, 12, 21]));
    network.settle(FUEL, 123);
    let expected = Packet {
        pack_type: PacketType::Nack(Nack { fragment_index: 1, nack_type: NackType::Dropped }),
        routing_header: SourceRoutingHeader { hop_index: 2, hops: vec![12, 11, 1] },
        session_id: 1,
    };
    assert_eq!(network.listen(Probe::Inbox(1)), Some(Message::Packet(expected)));
    assert_eq!(network.listen(Probe::Inbox(21)), None);
}

#[test]
fn chained_success_reaches_the_server_and_the_ack_the_client() {
    let mut network = Network::new(&vec![
        setup(11, vec![12, 1], DropRate::never()),
        setup(12, vec![11, 21], DropRate::never()),
    ]);
    network.send(11, create_sample_packet(1, vec![1, 11, 12, 21]));
    network.settle(FUEL, 0);
    assert_eq!(
        network.listen(Probe::Inbox(21)),
        Some(Message::Packet(create_sample_packet(3, vec![1, 11, 12, 21])))
    );
    network.send(
        12,
        Packet {
            pack_type: PacketType::Ack(Ack { fragment_index: 1 }),
            routing_header: SourceRoutingHeader { hop_index: 1, hops: vec![21, 12, 11, 1] },
            session_id: 1,
        },
    );
    network.settle(FUEL, 0);
    assert_eq!(
        network.listen(Probe::Inbox(1)),
        Some(Message::Packet(Packet {
            pack_type: PacketType::Ack(Ack { fragment_index: 1 }),
            routing_header: SourceRoutingHeader { hop_index: 3, hops: vec![21, 12, 11, 1] },
            session_id: 1,
        }))
    );
}

#[test]
fn relays_act_one_packet_at_a_time_first_relay_first() {
    let mut network = Network::new(&vec![
        setup(11, vec![12], DropRate::never()),
        setup(12, vec![21], DropRate::never()),
    ]);
    assert!(network.is_quiet());
    assert!(!network.step(0));
    network.send(12, get_ack(1, vec![1, 12, 21]));
    network.send(11, get_ack(1, vec![1, 11, 12, 21]));
    assert!(!network.is_quiet());
    assert!(network.step(0));
    assert_eq!(network.listen(Probe::Inbox(21)), None);
    assert!(network.step(0));
    assert_eq!(
        network.listen(Probe::Inbox(21)),
        Some(Message::Packet(get_ack(2, vec![1, 12, 21])))
    );
    assert!(network.step(0));
    assert!(!network.step(0));
    assert_eq!(
        network.listen(Probe::Inbox(21)),
        Some(Message::Packet(get_ack(3, vec![1, 11, 12, 21])))
    );
}

#[test]
fn settling_stops_when_the_fuel_is_used_up() {
    let mut network = Network::new(&vec![
        setup(11, vec![12], DropRate::never()),
        setup(12, vec![21], DropRate::never()),
    ]);
    network.send(11, get_ack(1, vec![1, 11, 12, 21]));
    network.settle(1, 0);
    assert!(!network.is_quiet());
    assert_eq!(network.listen(Probe::Inbox(21)), None);
    network.settle(0, 0);
    assert!(!network.is_quiet());
    network.settle(5, 0);
    assert!(network.is_quiet());
    assert_eq!(
        network.listen(Probe::Inbox(21)),
        Some(Message::Packet(get_ack(3, vec![1, 11, 12, 21])))
    );
}

#[test]
fn command_reaches_the_first_relay_only() {
    let mut network = Network::new(&vec![]);
    network.command(Command::Crash);
    assert_eq!(network.listen(Probe::Commands), None);
    let mut network = Network::new(&vec![setup(11, vec![12], DropRate::never())]);
    assert_eq!(network.listen(Probe::Commands), None);
    network.command(Command::Crash);
    assert_eq!(network.listen(Probe::Commands), Some(Message::Command(Command::Crash)));
    assert_eq!(network.listen(Probe::Commands), None);
}

#[test]
fn wrong_packet_fails_the_step_that_expected_another() {
    let mut scenario = generic_fragment_forward();
    scenario.script[1] = Step::Expect {
        at: Probe::Inbox(12),
        any_of: vec![Message::Packet(create_sample_packet(1, vec![1, 11, 12, 21]))],
    };
    assert_eq!(run(&scenario, FUEL, 0), Err(Failure::Unexpected { step: 1 }));
}

#[test]
fn silence_fails_the_step_that_listened() {
    let mut scenario = Scenario::new();
    scenario.relay(11, vec![12], DropRate::never());
    scenario.pause();
    scenario.send(11, create_sample_packet(1, vec![1, 11, 12, 21]));
    scenario.expect(Probe::Inbox(21), vec![]);
    assert_eq!(run(&scenario, FUEL, 0), Err(Failure::TimedOut { step: 2 }));
    let mut scenario = generic_fragment_drop();
    scenario.relays[0].drop_rate = DropRate::never();
    assert_eq!(run(&scenario, FUEL, 0), Err(Failure::TimedOut { step: 1 }));
    let mut scenario = generic_fragment_forward();
    scenario.relays[0].drop_rate = DropRate::always();
    assert_eq!(run(&scenario, FUEL, 0), Err(Failure::TimedOut { step: 1 }));
}

#[test]
fn scenario_without_fuel_times_out() {
    assert_eq!(run(&generic_new_flood(), 0, 0), Err(Failure::TimedOut { step: 1 }));
    assert_eq!(run(&generic_chain_fragment_drop(), 2, 0), Err(Failure::TimedOut { step: 1 }));
    assert_eq!(run(&generic_chain_fragment_drop(), 3, 0), Ok(()));
}

#[test]
fn empty_scenario_passes() {
    assert_eq!(run(&Scenario::new(), FUEL, 0), Ok(()));
}

#[test]
fn harness_walks_through_the_script() {
    let scenario = generic_new_flood();
    let mut harness = Harness::new(&scenario);
    assert_eq!(harness.verdict(), None);
    assert_eq!(
        harness.directive(),
        Directive::Send {
            to: 11,
            packet: create_sample_flood_req(1, 1, vec![(1, NodeType::Client)])
        }
    );
    harness.report(Outcome::Done);
    assert_eq!(harness.directive(), Directive::Listen(Probe::Inbox(1)));
    assert_eq!(harness.verdict(), None);
    let answer = create_flood_res(
        1,
        vec![(1, NodeType::Client), (11, NodeType::Relay)],
        SourceRoutingHeader { hop_index: 1, hops: vec![11, 1] },
    );
    harness.report(Outcome::Heard(Message::Packet(answer)));
    assert_eq!(harness.directive(), Directive::Passed);
    assert_eq!(harness.verdict(), Some(Ok(())));
    harness.report(Outcome::Done);
    assert_eq!(harness.verdict(), Some(Ok(())));
}

#[test]
fn harness_fails_on_silence_and_on_the_unexpected() {
    let scenario = generic_handle_crash();
    let mut harness = Harness::new(&scenario);
    assert_eq!(harness.directive(), Directive::Command(Command::Crash));
    harness.report(Outcome::Heard(Message::Command(Command::Crash)));
    assert_eq!(harness.directive(), Directive::Listen(Probe::Commands));
    harness.report(Outcome::Silence);
    assert_eq!(harness.directive(), Directive::Failed(Failure::TimedOut { step: 1 }));
    assert_eq!(harness.verdict(), Some(Err(Failure::TimedOut { step: 1 })));
    harness.report(Outcome::Heard(Message::Command(Command::Crash)));
    assert_eq!(harness.verdict(), Some(Err(Failure::TimedOut { step: 1 })));

    let mut harness = Harness::new(&scenario);
    harness.report(Outcome::Done);
    harness.report(Outcome::Heard(Message::Packet(get_ack(1, vec![1, 2]))));
    assert_eq!(harness.directive(), Directive::Failed(Failure::Unexpected { step: 1 }));
    assert_eq!(harness.verdict(), Some(Err(Failure::Unexpected { step: 1 })));
}

#[test]
fn harness_fails_where_nothing_could_be_sent() {
    let scenario = generic_handle_crash();
    let mut harness = Harness::new(&scenario);
    harness.report(Outcome::Undelivered);
    assert_eq!(harness.directive(), Directive::Failed(Failure::Undelivered { step: 0 }));
    assert_eq!(harness.verdict(), Some(Err(Failure::Undelivered { step: 0 })));

    let scenario = generic_known_flood_req();
    let mut harness = Harness::new(&scenario);
    harness.report(Outcome::Silence);
    harness.report(Outcome::Undelivered);
    assert_eq!(
        harness.directive(),
        Directive::Send {
            to: 11,
            packet: create_sample_flood_req(1, 1, vec![(1, NodeType::Client)])
        }
    );
    harness.report(Outcome::Undelivered);
    assert_eq!(harness.verdict(), Some(Err(Failure::Undelivered { step: 2 })));
}

#[test]
fn harness_takes_anything_but_a_message_for_silence() {
    for outcome in [Outcome::Done, Outcome::Silence, Outcome::Undelivered] {
        let scenario = generic_new_flood();
        let mut harness = Harness::new(&scenario);
        harness.report(Outcome::Done);
        harness.report(outcome);
        assert_eq!(harness.verdict(), Some(Err(Failure::TimedOut { step: 1 })));
    }
}

#[test]
fn harness_accepts_any_of_the_expected_in_any_order() {
    let scenario = generic_new_flood_neighbours();
    let responses = match &scenario.script[1] {
        Step::Expect { any_of, .. } => any_of.clone(),
        other => panic!("no expectation: {:?}", other),
    };
    for order in [[0, 1], [1, 0], [0, 0], [1, 1]] {
        let mut harness = Harness::new(&scenario);
        harness.report(Outcome::Done);
        harness.report(Outcome::Heard(responses[order[0]].clone()));
        assert_eq!(harness.directive(), Directive::Listen(Probe::Inbox(1)));
        harness.report(Outcome::Heard(responses[order[1]].clone()));
        assert_eq!(harness.verdict(), Some(Ok(())));
    }
}

#[test]
fn harness_pauses_where_the_script_does() {
    let scenario = generic_known_flood_req();
    let mut harness = Harness::new(&scenario);
    harness.report(Outcome::Done);
    assert_eq!(harness.directive(), Directive::Pause);
    harness.report(Outcome::Done);
    assert_eq!(
        harness.directive(),
        Directive::Send {
            to: 11,
            packet: create_sample_flood_req(1, 1, vec![(1, NodeType::Client)])
        }
    );
}

#[test]
fn message_matches_any_of_a_list() {
    let one = Message::Packet(get_ack(1, vec![1, 2]));
    let two = Message::Event(Event::PacketSent(get_ack(1, vec![1, 2])));
    let three = Message::Command(Command::Crash);
    assert!(one.matches_any(&vec![three.clone(), one.clone()]));
    assert!(two.matches_any(&vec![two.clone()]));
    assert!(!two.matches_any(&vec![one.clone(), three.clone()]));
    assert!(!three.matches_any(&vec![]));
    assert!(one.same_as(&one.duplicate()));
    assert!(!one.same_as(&two));
    assert_eq!(two.duplicate(), two);
}
