use relay_net::fault::DropRate;
use relay_net::flood_generics::{
    create_flood_res, create_sample_flood_req, generic_new_flood, generic_new_flood_neighbours,
};
use relay_net::fragment_generics::{
    create_sample_packet, generic_fragment_drop, generic_fragment_forward, get_ack, get_nack,
};
use relay_net::harness::{Failure, Message, Outcome, Probe, RelaySetup, Scenario};
use relay_net::network::Network;
use relay_net::packet::{Command, Event, NackType, NodeType, SourceRoutingHeader};
use relay_net::sc_generics::{generic_handle_crash, generic_receive_sc_command};
use relay_net::wiring::{drive, Link, Wiring, PAUSE_MS, TIMEOUT_MS};
use std::time::{Duration, Instant};

fn response_of_11() -> relay_net::packet::Packet {
    create_flood_res(
        1,
        vec![(1, NodeType::Client), (11, NodeType::Relay)],
        SourceRoutingHeader { hop_index: 1, hops: vec![11, 1] },
    )
}

#[test]
fn time_limits_are_those_of_the_scenarios() {
    assert_eq!(TIMEOUT_MS, 400);
    assert_eq!(PAUSE_MS, 300);
}

#[test]
fn link_hands_over_what_is_sent_in_order() {
    let wiring = Wiring::new();
    let link: &Link<Command> = wiring.commands();
    link.sender().send(Command::Crash).unwrap();
    link.sender().send(Command::Crash).unwrap();
    assert_eq!(link.receiver().try_recv(), Ok(Command::Crash));
    assert_eq!(link.receiver().try_recv(), Ok(Command::Crash));
    assert!(link.receiver().try_recv().is_err());
}

#[test]
fn wiring_keeps_the_queues_of_the_nodes_apart() {
    let wiring = Wiring::new();
    wiring.inbox(0).sender().send(get_ack(1, vec![0])).unwrap();
    wiring.inbox(255).sender().send(get_ack(1, vec![255])).unwrap();
    wiring.events().sender().send(Event::PacketSent(get_ack(1, vec![7]))).unwrap();
    assert!(wiring.inbox(1).receiver().try_recv().is_err());
    assert!(wiring.commands().receiver().try_recv().is_err());
    assert_eq!(wiring.inbox(255).receiver().try_recv(), Ok(get_ack(1, vec![255])));
    assert_eq!(wiring.inbox(0).receiver().try_recv(), Ok(get_ack(1, vec![0])));
    assert_eq!(wiring.events().receiver().try_recv(), Ok(Event::PacketSent(get_ack(1, vec![7]))));
}

#[test]
fn drive_sends_what_the_script_sends_and_hears_what_waits() {
    let wiring = Wiring::new();
    wiring.inbox(1).sender().send(response_of_11()).unwrap();
    let report = drive(&generic_new_flood(), &wiring, 50, 10);
    assert_eq!(report.verdict, Ok(()));
    assert_eq!(
        report.outcomes,
        vec![Outcome::Done, Outcome::Heard(Message::Packet(response_of_11()))]
    );
    assert_eq!(
        wiring.inbox(11).receiver().try_recv(),
        Ok(create_sample_flood_req(1, 1, vec![(1, NodeType::Client)]))
    );
    assert!(wiring.inbox(11).receiver().try_recv().is_err());
    assert!(wiring.inbox(1).receiver().try_recv().is_err());
}

#[test]
fn drive_times_out_where_nothing_arrives() {
    let wiring = Wiring::new();
    let start = Instant::now();
    let report = drive(&generic_new_flood(), &wiring, 60, 10);
    assert!(start.elapsed() >= Duration::from_millis(60));
    assert_eq!(report.verdict, Err(Failure::TimedOut { step: 1 }));
    assert_eq!(report.outcomes, vec![Outcome::Done, Outcome::Silence]);
}

#[test]
fn drive_fails_on_what_it_did_not_expect() {
    let wiring = Wiring::new();
    let wrong = get_nack(1, vec![11, 1], NackType::ErrorInRouting);
    wiring.inbox(1).sender().send(wrong.clone()).unwrap();
    wiring.inbox(1).sender().send(response_of_11()).unwrap();
    let report = drive(&generic_new_flood(), &wiring, 50, 10);
    assert_eq!(report.verdict, Err(Failure::Unexpected { step: 1 }));
    assert_eq!(report.outcomes, vec![Outcome::Done, Outcome::Heard(Message::Packet(wrong))]);
    assert_eq!(wiring.inbox(1).receiver().try_recv(), Ok(response_of_11()));
}

#[test]
fn drive_listens_at_the_queue_that_the_step_names() {
    let wiring = Wiring::new();
    let forwarded = create_sample_packet(2, vec![1, 11, 12, 21]);
    wiring.inbox(12).sender().send(forwarded.clone()).unwrap();
    wiring.events().sender().send(Event::PacketSent(forwarded.clone())).unwrap();
    let report = drive(&generic_fragment_forward(), &wiring, 50, 10);
    assert_eq!(report.verdict, Ok(()));
    assert_eq!(
        report.outcomes,
        vec![
            Outcome::Done,
            Outcome::Heard(Message::Packet(forwarded.clone())),
            Outcome::Heard(Message::Event(Event::PacketSent(forwarded))),
        ]
    );
}

#[test]
fn drive_accepts_the_reports_of_a_drop_in_either_order() {
    let fragment = create_sample_packet(1, vec![1, 11, 12, 21]);
    let report_packet = get_nack(1, vec![11, 1], NackType::Dropped);
    let dropped = Event::PacketDropped(fragment);
    let sent = Event::PacketSent(report_packet.clone());
    for events in [[dropped.clone(), sent.clone()], [sent, dropped]] {
        let wiring = Wiring::new();
        wiring.inbox(1).sender().send(report_packet.clone()).unwrap();
        for event in events {
            wiring.events().sender().send(event).unwrap();
        }
        assert_eq!(drive(&generic_fragment_drop(), &wiring, 50, 10).verdict, Ok(()));
    }
}

#[test]
fn drive_hears_the_command_that_it_has_issued() {
    for scenario in [generic_receive_sc_command(), generic_handle_crash()] {
        let wiring = Wiring::new();
        let report = drive(&scenario, &wiring, 50, 10);
        assert_eq!(report.verdict, Ok(()));
        assert_eq!(
            report.outcomes,
            vec![Outcome::Done, Outcome::Heard(Message::Command(Command::Crash))]
        );
    }
}

#[test]
fn drive_pauses_for_the_given_time() {
    let mut scenario = Scenario::new();
    scenario.pause();
    scenario.pause();
    let wiring = Wiring::new();
    let start = Instant::now();
    let report = drive(&scenario, &wiring, 0, 40);
    assert!(start.elapsed() >= Duration::from_millis(80));
    assert_eq!(report.verdict, Ok(()));
    assert_eq!(report.outcomes, vec![Outcome::Done, Outcome::Done]);
}

#[test]
fn drive_agrees_with_the_network_in_one_place() {
    let scenario = generic_new_flood_neighbours();
    let setups: Vec<RelaySetup> = scenario.relays.clone();
    let mut network = Network::new(&setups);
    network.send(11, create_sample_flood_req(1, 1, vec![(1, NodeType::Client)]));
    network.settle(100, 0);
    let wiring = Wiring::new();
    while let Some(Message::Packet(packet)) = network.listen(Probe::Inbox(1)) {
        wiring.inbox(1).sender().send(packet).unwrap();
    }
    let report = drive(&scenario, &wiring, 50, 10);
    assert_eq!(report.verdict, Ok(()));
    assert_eq!(report.outcomes.len(), 3);
    assert_eq!(setups[0].drop_rate, DropRate::never());
}

fn serve_until_quiet(relays: &mut Vec<relay_net::relay::Relay>, wiring: &Wiring) {
    let mut acted = true;
    while acted {
        acted = false;
        for relay in relays.iter_mut() {
            while let Ok(packet) = wiring.inbox(relay.id()).receiver().try_recv() {
                acted = true;
                for action in relay.handle_packet(packet, 0) {
                    match action {
                        relay_net::relay::Action::Deliver { to, packet } => {
                            wiring.inbox(to).sender().send(packet).unwrap();
                        },
                        relay_net::relay::Action::Report(event) => {
                            wiring.events().sender().send(event).unwrap();
                        },
                    }
                }
            }
        }
    }
}

fn passes_step_by_step(scenario: &Scenario) {
    let wiring = Wiring::new();
    let mut relays = Vec::new();
    for setup in &scenario.relays {
        relays.push(relay_net::relay::Relay::new(
            setup.id,
            setup.neighbors.clone(),
            setup.drop_rate,
        ));
    }
    for step in &scenario.script {
        let mut one = Scenario::new();
        one.step(step.clone());
        let report = drive(&one, &wiring, 50, 10);
        assert_eq!(report.verdict, Ok(()));
        assert_eq!(report.outcomes.len(), 1);
        serve_until_quiet(&mut relays, &wiring);
    }
}

#[test]
fn drive_and_relays_pass_the_flood_scenarios_step_by_step() {
    passes_step_by_step(&generic_new_flood());
    passes_step_by_step(&generic_new_flood_neighbours());
    passes_step_by_step(&relay_net::flood_generics::generic_new_flood_no_initiator());
    passes_step_by_step(&relay_net::flood_generics::generic_flood_res_forward());
    passes_step_by_step(&relay_net::flood_generics::generic_known_flood_req());
    passes_step_by_step(&relay_net::flood_generics::generic_flood_req_two_initiator());
}

#[test]
fn drive_and_relays_pass_the_packet_scenarios_step_by_step() {
    passes_step_by_step(&generic_fragment_forward());
    passes_step_by_step(&generic_fragment_drop());
    passes_step_by_step(&relay_net::fragment_generics::generic_chain_fragment_drop());
    passes_step_by_step(&relay_net::fragment_generics::generic_chain_fragment_ack());
    passes_step_by_step(&relay_net::fragment_generics::generic_ack_forward());
    passes_step_by_step(&relay_net::fragment_generics::generic_nack_forward());
    passes_step_by_step(&relay_net::fragment_generics::generic_destination_is_drone());
}
