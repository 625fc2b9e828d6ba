use relay_net::fault::{DropRate, DROP_SCALE};
use relay_net::packet::{
    Ack, Command, Event, FloodRequest, FloodResponse, Fragment, Nack, NackType, NodeId, NodeType,
    Packet, PacketType, SourceRoutingHeader,
};
use relay_net::relay::{Action, Relay};

fn fragment(hop_index: usize, hops: Vec<NodeId>) -> Packet {
    Packet {
        pack_type: PacketType::Fragment(Fragment {
            fragment_index: 7,
            total_n_fragments: 9,
            length: 128,
            data: [3; 128],
        }),
        routing_header: SourceRoutingHeader { hop_index, hops },
        session_id: 42,
    }
}

fn nack(hop_index: usize, hops: Vec<NodeId>, fragment_index: u64, nack_type: NackType) -> Packet {
    Packet {
        pack_type: PacketType::Nack(Nack { fragment_index, nack_type }),
        routing_header: SourceRoutingHeader { hop_index, hops },
        session_id: 42,
    }
}

fn request(flood_id: u64, initiator_id: NodeId, path_trace: Vec<(NodeId, NodeType)>) -> Packet {
    Packet {
        pack_type: PacketType::FloodRequest(FloodRequest { flood_id, initiator_id, path_trace }),
        routing_header: SourceRoutingHeader { hop_index: 0, hops: vec![] },
        session_id: 5,
    }
}

fn response(
    flood_id: u64,
    path_trace: Vec<(NodeId, NodeType)>,
    hops: Vec<NodeId>,
    hop_index: usize,
) -> Packet {
    Packet {
        pack_type: PacketType::FloodResponse(FloodResponse { flood_id, path_trace }),
        routing_header: SourceRoutingHeader { hop_index, hops },
        session_id: 5,
    }
}

fn sent(to: NodeId, packet: Packet) -> Vec<Action> {
    vec![
        Action::Deliver { to, packet: packet.clone() },
        Action::Report(Event::PacketSent(packet)),
    ]
}

#[test]
fn new_relay_keeps_each_neighbor_once_in_first_place() {
    let relay = Relay::new(11, vec![12, 1, 12, 13, 1], DropRate::never());
    assert_eq!(relay.id(), 11);
    assert_eq!(relay.neighbors(), &vec![12, 1, 13]);
    assert!(relay.is_linked(13));
    assert!(!relay.is_linked(11));
    assert!(!relay.crash_received());
    assert_eq!(relay.drop_rate(), DropRate::never());
}

#[test]
fn fragment_is_forwarded_with_cursor_moved_on() {
    let mut relay = Relay::new(11, vec![12], DropRate::never());
    let actions = relay.handle_packet(fragment(1, vec![1, 11, 12, 21]), 0);
    assert_eq!(actions, sent(12, fragment(2, vec![1, 11, 12, 21])));
}

#[test]
fn fresh_flood_goes_to_every_neighbor_but_the_sender() {
    let mut relay = Relay::new(11, vec![1, 12, 13], DropRate::never());
    let actions = relay.handle_packet(request(1, 1, vec![(1, NodeType::Client)]), 0);
    let onward = request(1, 1, vec![(1, NodeType::Client), (11, NodeType::Relay)]);
    let mut expected = sent(12, onward.clone());
    expected.extend(sent(13, onward));
    assert_eq!(actions, expected);
    assert!(relay.has_seen(1, 1));
    assert!(!relay.has_seen(1, 2));
    assert!(!relay.has_seen(2, 1));
}

#[test]
fn fresh_flood_is_answered_where_no_other_neighbor_exists() {
    let mut relay = Relay::new(11, vec![1], DropRate::never());
    let actions = relay.handle_packet(request(1, 1, vec![(1, NodeType::Client)]), 0);
    let answer =
        response(1, vec![(1, NodeType::Client), (11, NodeType::Relay)], vec![11, 1], 1);
    assert_eq!(actions, sent(1, answer));
    assert!(relay.has_seen(1, 1));
}

#[test]
fn flood_with_empty_trace_is_answered_to_its_initiator() {
    let mut relay = Relay::new(11, vec![1], DropRate::never());
    let actions = relay.handle_packet(request(1, 1, vec![]), 0);
    assert_eq!(actions, sent(1, response(1, vec![(11, NodeType::Relay)], vec![11, 1], 1)));
}

#[test]
fn known_flood_is_answered_and_not_passed_on() {
    let mut relay = Relay::new(11, vec![1, 12], DropRate::never());
    let first = relay.handle_packet(request(1, 1, vec![(1, NodeType::Client)]), 0);
    assert_eq!(
        first,
        sent(12, request(1, 1, vec![(1, NodeType::Client), (11, NodeType::Relay)]))
    );
    let second = relay.handle_packet(request(1, 1, vec![(1, NodeType::Client)]), 0);
    let answer =
        response(1, vec![(1, NodeType::Client), (11, NodeType::Relay)], vec![11, 1], 1);
    assert_eq!(second, sent(1, answer));
}

#[test]
fn known_flood_from_another_side_is_answered_to_that_side() {
    let mut relay = Relay::new(11, vec![1, 12], DropRate::never());
    relay.handle_packet(request(1, 1, vec![(1, NodeType::Client)]), 0);
    let again = relay.handle_packet(
        request(1, 1, vec![(1, NodeType::Client), (13, NodeType::Relay), (12, NodeType::Relay)]),
        0,
    );
    let answer = response(
        1,
        vec![
            (1, NodeType::Client),
            (13, NodeType::Relay),
            (12, NodeType::Relay),
            (11, NodeType::Relay),
        ],
        vec![11, 12, 13, 1],
        1,
    );
    assert_eq!(again, sent(12, answer));
}

#[test]
fn answer_to_an_unlinked_sender_is_not_sent() {
    let mut relay = Relay::new(11, vec![12], DropRate::never());
    relay.handle_packet(request(1, 1, vec![(1, NodeType::Client)]), 0);
    let again = relay.handle_packet(request(1, 1, vec![(1, NodeType::Client)]), 0);
    assert_eq!(again, vec![]);
}

#[test]
fn trace_grows_by_the_relay_alone() {
    let mut relay = Relay::new(14, vec![2, 3], DropRate::never());
    let trace = vec![(1, NodeType::Client), (9, NodeType::Relay), (2, NodeType::Relay)];
    let actions = relay.handle_packet(request(8, 1, trace.clone()), 0);
    let mut grown = trace;
    grown.push((14, NodeType::Relay));
    assert_eq!(actions, sent(3, request(8, 1, grown)));
}

#[test]
fn floods_of_two_initiators_are_both_passed_on() {
    let mut relay = Relay::new(11, vec![12], DropRate::never());
    let one = relay.handle_packet(request(1, 1, vec![(1, NodeType::Client)]), 0);
    let two = relay.handle_packet(request(1, 2, vec![(2, NodeType::Client)]), 0);
    assert_eq!(one, sent(12, request(1, 1, vec![(1, NodeType::Client), (11, NodeType::Relay)])));
    assert_eq!(two, sent(12, request(1, 2, vec![(2, NodeType::Client), (11, NodeType::Relay)])));

    let mut other = Relay::new(11, vec![12], DropRate::never());
    let two_first = other.handle_packet(request(1, 2, vec![(2, NodeType::Client)]), 0);
    let one_second = other.handle_packet(request(1, 1, vec![(1, NodeType::Client)]), 0);
    assert_eq!(two_first, two);
    assert_eq!(one_second, one);
    assert_eq!(relay.has_seen(1, 1), other.has_seen(1, 1));
    assert_eq!(relay.has_seen(2, 1), other.has_seen(2, 1));
}

#[test]
fn rate_zero_never_drops_and_rate_one_always_drops() {
    let draws: [u32; 7] = [0, 1, 2, 1 << 16, 1 << 31, u32::MAX - 1, u32::MAX];
    for draw in draws {
        let mut never = Relay::new(11, vec![1, 12], DropRate::never());
        let forwarded = never.handle_packet(fragment(1, vec![1, 11, 12, 21]), draw);
        assert_eq!(forwarded, sent(12, fragment(2, vec![1, 11, 12, 21])));

        let mut always = Relay::new(11, vec![1, 12], DropRate::always());
        let dropped = always.handle_packet(fragment(1, vec![1, 11, 12, 21]), draw);
        let mut expected =
            vec![Action::Report(Event::PacketDropped(fragment(1, vec![1, 11, 12, 21])))];
        expected.extend(sent(1, nack(1, vec![11, 1], 7, NackType::Dropped)));
        assert_eq!(dropped, expected);
    }
}

#[test]
fn drop_depends_on_the_draw_below_the_threshold() {
    let rate = DropRate::new(1000).unwrap();
    let mut relay = Relay::new(11, vec![1, 12], rate);
    let below = relay.handle_packet(fragment(1, vec![1, 11, 12, 21]), 999);
    assert_eq!(below.len(), 3);
    assert_eq!(below[0], Action::Report(Event::PacketDropped(fragment(1, vec![1, 11, 12, 21]))));
    let at = relay.handle_packet(fragment(1, vec![1, 11, 12, 21]), 1000);
    assert_eq!(at, sent(12, fragment(2, vec![1, 11, 12, 21])));
}

#[test]
fn acks_and_nacks_are_never_dropped() {
    let mut relay = Relay::new(11, vec![12], DropRate::always());
    let ack = Packet {
        pack_type: PacketType::Ack(Ack { fragment_index: 4 }),
        routing_header: SourceRoutingHeader { hop_index: 1, hops: vec![1, 11, 12] },
        session_id: 42,
    };
    let mut moved = ack.clone();
    moved.routing_header.hop_index = 2;
    assert_eq!(relay.handle_packet(ack, 0), sent(12, moved));
    let report = nack(1, vec![21, 11, 12], 4, NackType::UnexpectedRecipient);
    let moved = nack(2, vec![21, 11, 12], 4, NackType::UnexpectedRecipient);
    assert_eq!(relay.handle_packet(report, 0), sent(12, moved));
    let answer = response(3, vec![(1, NodeType::Client)], vec![21, 11, 12], 1);
    let moved = response(3, vec![(1, NodeType::Client)], vec![21, 11, 12], 2);
    assert_eq!(relay.handle_packet(answer, 0), sent(12, moved));
}

#[test]
fn fragment_for_the_relay_itself_is_answered_with_destination_is_drone() {
    let mut relay = Relay::new(11, vec![1, 12], DropRate::never());
    let actions = relay.handle_packet(fragment(1, vec![1, 11]), 0);
    assert_eq!(actions, sent(1, nack(1, vec![11, 1], 7, NackType::DestinationIsDrone)));
}

#[test]
fn fragment_for_the_relay_itself_is_not_dropped_first() {
    let mut relay = Relay::new(11, vec![1, 12], DropRate::always());
    let actions = relay.handle_packet(fragment(2, vec![1, 12, 11]), 0);
    assert_eq!(actions, sent(12, nack(1, vec![11, 12, 1], 7, NackType::DestinationIsDrone)));
}

#[test]
fn fragment_at_the_start_of_its_route_cannot_be_answered() {
    let mut relay = Relay::new(11, vec![1, 12], DropRate::never());
    assert_eq!(relay.handle_packet(fragment(0, vec![11]), 0), vec![]);
}

#[test]
fn unknown_next_hop_is_answered_with_error_in_routing() {
    let mut relay = Relay::new(11, vec![1], DropRate::never());
    let actions = relay.handle_packet(fragment(1, vec![1, 11, 12, 21]), 0);
    assert_eq!(actions, sent(1, nack(1, vec![11, 1], 7, NackType::ErrorInRouting)));
}

#[test]
fn unknown_next_hop_comes_before_the_fault_decision() {
    let mut relay = Relay::new(11, vec![1], DropRate::always());
    let actions = relay.handle_packet(fragment(1, vec![1, 11, 12, 21]), 0);
    assert_eq!(actions, sent(1, nack(1, vec![11, 1], 7, NackType::ErrorInRouting)));
}

#[test]
fn ack_without_next_hop_is_answered_with_error_in_routing() {
    let mut relay = Relay::new(11, vec![1], DropRate::never());
    let ack = Packet {
        pack_type: PacketType::Ack(Ack { fragment_index: 4 }),
        routing_header: SourceRoutingHeader { hop_index: 1, hops: vec![1, 11] },
        session_id: 42,
    };
    let actions = relay.handle_packet(ack, 0);
    assert_eq!(actions, sent(1, nack(1, vec![11, 1], 4, NackType::ErrorInRouting)));
}

#[test]
fn packet_addressed_to_another_node_is_answered_with_error_in_routing() {
    let mut relay = Relay::new(11, vec![1, 12], DropRate::never());
    let actions = relay.handle_packet(fragment(1, vec![1, 15, 12]), 0);
    assert_eq!(actions, sent(1, nack(1, vec![15, 1], 7, NackType::ErrorInRouting)));
}

#[test]
fn packet_with_cursor_behind_its_route_is_discarded() {
    let mut relay = Relay::new(11, vec![1, 12], DropRate::never());
    assert_eq!(relay.handle_packet(fragment(4, vec![1, 11, 12]), 0), vec![]);
    assert_eq!(relay.handle_packet(fragment(0, vec![]), 0), vec![]);
}

#[test]
fn flood_response_without_reachable_next_hop_reports_fragment_zero() {
    let mut relay = Relay::new(11, vec![1], DropRate::never());
    let answer = response(3, vec![(1, NodeType::Client)], vec![1, 11, 12], 1);
    let actions = relay.handle_packet(answer, 0);
    let mut report = nack(1, vec![11, 1], 0, NackType::ErrorInRouting);
    report.session_id = 5;
    assert_eq!(actions, sent(1, report));
}

#[test]
fn every_delivery_is_followed_by_its_report() {
    let mut relay = Relay::new(11, vec![1, 12, 13, 14], DropRate::never());
    let actions = relay.handle_packet(request(1, 1, vec![(1, NodeType::Client)]), 0);
    assert_eq!(actions.len(), 6);
    for pair in actions.chunks(2) {
        match (&pair[0], &pair[1]) {
            (Action::Deliver { to, packet }, Action::Report(Event::PacketSent(reported))) => {
                assert!(relay.is_linked(*to));
                assert_eq!(packet, reported);
            },
            _ => panic!("delivery without its report"),
        }
    }
}

#[test]
fn crash_command_is_remembered_and_changes_nothing_else() {
    let mut relay = Relay::new(11, vec![12], DropRate::never());
    relay.handle_command(Command::Crash);
    assert!(relay.crash_received());
    let actions = relay.handle_packet(fragment(1, vec![1, 11, 12, 21]), 0);
    assert_eq!(actions, sent(12, fragment(2, vec![1, 11, 12, 21])));
}

#[test]
fn drop_rate_is_bounded_by_the_scale() {
    assert_eq!(DROP_SCALE, 1 << 32);
    assert_eq!(DropRate::new(0), Some(DropRate::never()));
    assert_eq!(DropRate::new(DROP_SCALE), Some(DropRate::always()));
    assert_eq!(DropRate::new(DROP_SCALE + 1), None);
    assert_eq!(DropRate::new(12345).unwrap().parts(), 12345);
    assert_eq!(DropRate::always().parts(), DROP_SCALE);
}

#[test]
fn drop_rate_decides_by_comparing_with_its_threshold() {
    let rate = DropRate::new(5).unwrap();
    assert!(rate.decide(0));
    assert!(rate.decide(4));
    assert!(!rate.decide(5));
    assert!(!rate.decide(u32::MAX));
    assert!(!DropRate::never().decide(0));
    assert!(DropRate::always().decide(u32::MAX));
}
