//! A network of relays in one place: queues instead of channels, and one
//! relay at a time instead of many at once.
//!
//! Every node has an inbound queue. Relays take packets from theirs, one at
//! a time, and what they ask to be delivered is put at the end of the queue
//! of its receiver; the queues of the other nodes only grow, until someone
//! listens at them. Among several relays with waiting packets the first of
//! the scenario goes first, which is one of the orders in which relays that
//! run side by side may come to act. A command reaches the first relay as
//! soon as it is issued, and the probe at the command queue hears each
//! command that a relay has received.

use crate::harness::{
    at_start, view_relays, Directive, DirectiveView, Failure, Harness, HarnessState, Message, MessageView,
    Outcome, OutcomeView, Probe, RelaySetup, RelaySetupView, Scenario, StepView,
};
use crate::model::{ActionView, RelayState};
use crate::packet::{duplicate_hops, Command, Event, EventView, NodeId, Packet, PacketView};
use crate::relay::{distinct, view_actions, Action, Relay};
use vstd::prelude::*;

verus! {

/// The number of node ids, and so of inbound queues.
pub const NODE_COUNT: usize = 256;

/// The models of a list of packets, in its order.
pub open spec fn view_packets(packets: Seq<Packet>) -> Seq<PacketView> {
    packets.map_values(|packet: Packet| packet@)
}

/// The models of a list of events, in its order.
pub open spec fn view_events(events: Seq<Event>) -> Seq<EventView> {
    events.map_values(|event: Event| event@)
}

/// Mathematical model of a [`Network`].
#[verifier::ext_equal]
pub struct NetworkState {
    pub relays: Seq<RelayState>,
    /// The inbound queue of each node, by its id; the packet that came
    /// first stands first.
    pub inboxes: Seq<Seq<PacketView>>,
    /// What the relays have reported and nobody has heard yet.
    pub events: Seq<EventView>,
    /// The commands that relays have received and nobody has heard of yet.
    pub commands: Seq<Command>,
}

/// The relay that a setup asks for, before it has seen anything.
pub open spec fn fresh_relay(setup: RelaySetupView) -> RelayState {
    RelayState {
        id: setup.id,
        neighbors: distinct(setup.neighbors),
        seen: Set::empty(),
        drop_threshold: setup.drop_threshold,
        crash_received: false,
    }
}

/// The network of the given relays in which nothing has happened yet.
pub open spec fn initial_network(setups: Seq<RelaySetupView>) -> NetworkState {
    NetworkState {
        relays: setups.map_values(|setup: RelaySetupView| fresh_relay(setup)),
        inboxes: Seq::new(NODE_COUNT as nat, |node: int| Seq::empty()),
        events: Seq::empty(),
        commands: Seq::empty(),
    }
}

impl NetworkState {
    /// Every node has its queue, and every relay is well formed.
    pub open spec fn well_formed(self) -> bool {
        &&& self.inboxes.len() == NODE_COUNT
        &&& forall|i: int| 0 <= i < self.relays.len() ==> (#[trigger] self.relays[i]).well_formed()
    }

    /// The inbound queue of `node`.
    pub open spec fn inbox(self, node: NodeId) -> Seq<PacketView> {
        self.inboxes[node as int]
    }

    /// The network with `packet` put at the end of the queue of `to`.
    pub open spec fn with_packet(self, to: NodeId, packet: PacketView) -> NetworkState {
        NetworkState {
            inboxes: self.inboxes.update(to as int, self.inbox(to).push(packet)),
            ..self
        }
    }

    /// The network once `command` has been issued: the first relay has
    /// received it.
    pub open spec fn with_command(self, command: Command) -> NetworkState {
        if self.relays.len() > 0 {
            NetworkState {
                relays: self.relays.update(0, self.relays[0].after_command(command)),
                commands: self.commands.push(command),
                ..self
            }
        } else {
            self
        }
    }

    /// The network once `action` has been carried out.
    pub open spec fn perform(self, action: ActionView) -> NetworkState {
        match action {
            ActionView::Deliver { to, packet } => self.with_packet(to, packet),
            ActionView::Report(event) => NetworkState { events: self.events.push(event), ..self },
        }
    }

    /// The network once `actions` have been carried out, first to last.
    pub open spec fn perform_all(self, actions: Seq<ActionView>) -> NetworkState
        decreases actions.len(),
    {
        if actions.len() == 0 {
            self
        } else {
            self.perform_all(actions.drop_last()).perform(actions.last())
        }
    }

    /// The relay at position `i` has a packet waiting.
    pub open spec fn waiting(self, i: int) -> bool {
        0 <= i < self.relays.len() && self.inbox(self.relays[i].id).len() > 0
    }

    /// The relay at position `i` has a packet waiting, and none before it
    /// has.
    pub open spec fn first_waiting(self, i: int) -> bool {
        self.waiting(i) && forall|j: int| 0 <= j < i ==> !self.waiting(j)
    }

    /// The position of the relay to act next, if any has a packet waiting.
    pub open spec fn busy(self) -> Option<int> {
        if exists|i: int| self.first_waiting(i) {
            Some(choose|i: int| self.first_waiting(i))
        } else {
            None
        }
    }

    /// The network once the relay at position `i` has taken the first packet
    /// from its queue and reacted to it.
    pub open spec fn served(self, i: int, draw: u32) -> NetworkState {
        let relay = self.relays[i];
        let packet = self.inbox(relay.id).first();
        NetworkState {
            relays: self.relays.update(i, relay.after(packet)),
            inboxes: self.inboxes.update(relay.id as int, self.inbox(relay.id).skip(1)),
            ..self
        }.perform_all(relay.react(packet, draw))
    }

    /// The network once the relay that is to act next has acted; the same
    /// network if no relay has a packet waiting.
    pub open spec fn step(self, draw: u32) -> NetworkState {
        match self.busy() {
            Some(i) => self.served(i, draw),
            None => self,
        }
    }

    /// The network once relays have acted until none has a packet waiting,
    /// or `fuel` packets have been handled.
    pub open spec fn settle(self, fuel: nat, draw: u32) -> NetworkState
        decreases fuel,
    {
        if fuel == 0 || self.busy() is None {
            self
        } else {
            self.step(draw).settle((fuel - 1) as nat, draw)
        }
    }

    /// What is heard at `probe`, and the network without it: the first of
    /// what waits there, or nothing.
    pub open spec fn listen(self, probe: Probe) -> (Option<MessageView>, NetworkState) {
        match probe {
            Probe::Inbox(node) => if self.inbox(node).len() > 0 {
                (
                    Some(MessageView::Packet(self.inbox(node).first())),
                    NetworkState {
                        inboxes: self.inboxes.update(node as int, self.inbox(node).skip(1)),
                        ..self
                    },
                )
            } else {
                (None, self)
            },
            Probe::Events => if self.events.len() > 0 {
                (
                    Some(MessageView::Event(self.events.first())),
                    NetworkState { events: self.events.skip(1), ..self },
                )
            } else {
                (None, self)
            },
            Probe::Commands => if self.commands.len() > 0 {
                (
                    Some(MessageView::Command(self.commands.first())),
                    NetworkState { commands: self.commands.skip(1), ..self },
                )
            } else {
                (None, self)
            },
        }
    }
}

/// The outcome of having listened and heard `heard`.
pub open spec fn outcome_of(heard: Option<MessageView>) -> OutcomeView {
    match heard {
        Some(message) => OutcomeView::Heard(message),
        None => OutcomeView::Silence,
    }
}

/// The verdict of the run that `harness` directs on `network`. Before the
/// harness listens, and at every pause, the network settles; `fuel` bounds
/// the packets handled each time.
pub open spec fn run_from(
    harness: HarnessState,
    network: NetworkState,
    fuel: nat,
    draw: u32,
) -> Result<(), Failure>
    decreases harness.script.len() - harness.position, if harness.failure is Some {
        0nat
    } else {
        1nat
    },
{
    match harness.directive() {
        DirectiveView::Passed => Ok(()),
        DirectiveView::Failed(failure) => Err(failure),
        DirectiveView::Send { to, packet } => run_from(
            harness.after(OutcomeView::Done),
            network.with_packet(to, packet),
            fuel,
            draw,
        ),
        DirectiveView::Command(command) => run_from(
            harness.after(OutcomeView::Done),
            network.with_command(command),
            fuel,
            draw,
        ),
        DirectiveView::Pause => run_from(
            harness.after(OutcomeView::Done),
            network.settle(fuel, draw),
            fuel,
            draw,
        ),
        DirectiveView::Listen(probe) => {
            let (heard, rest) = network.settle(fuel, draw).listen(probe);
            run_from(harness.after(outcome_of(heard)), rest, fuel, draw)
        },
    }
}

/// The verdict of `scenario` on a network of relays as this crate defines
/// them.
pub open spec fn verdict_of(
    script: Seq<StepView>,
    relays: Seq<RelaySetupView>,
    fuel: nat,
    draw: u32,
) -> Result<(), Failure> {
    run_from(at_start(script), initial_network(relays), fuel, draw)
}

/// A network of relays and passive endpoints.
#[derive(Debug)]
pub struct Network {
    relays: Vec<Relay>,
    inboxes: Vec<Vec<Packet>>,
    events: Vec<Event>,
    commands: Vec<Command>,
}

impl View for Network {
    type V = NetworkState;

    closed spec fn view(&self) -> NetworkState {
        NetworkState {
            relays: self.relays@.map_values(|relay: Relay| relay@),
            inboxes: self.inboxes@.map_values(|queue: Vec<Packet>| view_packets(queue@)),
            events: view_events(self.events@),
            commands: self.commands@,
        }
    }
}

impl Network {
    /// The network of the given relays in which nothing has happened yet.
    pub fn new(setups: &Vec<RelaySetup>) -> (network: Network)
        ensures
            network@ == initial_network(view_relays(setups@)),
            network@.well_formed(),
    {
        let mut relays: Vec<Relay> = Vec::new();
        let mut i: usize = 0;
        while i < setups.len()
            invariant
                i <= setups.len(),
                relays@.len() == i,
                forall|k: int| 0 <= k < i ==> (#[trigger] relays@[k])@ == fresh_relay(setups@[k]@),
                forall|k: int| 0 <= k < i ==> (#[trigger] relays@[k])@.well_formed(),
            decreases setups.len() - i,
        {
            let setup = &setups[i];
            relays.push(Relay::new(setup.id, duplicate_hops(&setup.neighbors), setup.drop_rate));
            i += 1;
        }
        let mut inboxes: Vec<Vec<Packet>> = Vec::new();
        let mut node: usize = 0;
        while node < NODE_COUNT
            invariant
                node <= NODE_COUNT,
                inboxes@.len() == node,
                forall|k: int| 0 <= k < node ==> (#[trigger] inboxes@[k])@.len() == 0,
            decreases NODE_COUNT - node,
        {
            inboxes.push(Vec::new());
            node += 1;
        }
        let network = Network { relays, inboxes, events: Vec::new(), commands: Vec::new() };
        assert(network@ =~~= initial_network(view_relays(setups@)));
        network
    }

    /// Puts `packet` at the end of the inbound queue of `to`.
    pub fn send(&mut self, to: NodeId, packet: Packet)
        requires
            old(self)@.well_formed(),
        ensures
            final(self)@ == old(self)@.with_packet(to, packet@),
            final(self)@.well_formed(),
    {
        self.inboxes[to as usize].push(packet);
        assert(self@ =~~= old(self)@.with_packet(to, packet@));
    }

    /// Issues `command`: the first relay receives it.
    pub fn command(&mut self, command: Command)
        requires
            old(self)@.well_formed(),
        ensures
            final(self)@ == old(self)@.with_command(command),
            final(self)@.well_formed(),
    {
        if self.relays.len() > 0 {
            self.relays[0].handle_command(command);
            self.commands.push(command);
            assert(self@ =~~= old(self)@.with_command(command));
        }
    }

    /// Carries out `actions`, first to last.
    fn perform_all(&mut self, actions: &Vec<Action>)
        requires
            old(self)@.well_formed(),
        ensures
            final(self)@ == old(self)@.perform_all(view_actions(actions@)),
            final(self)@.well_formed(),
    {
        let mut i: usize = 0;
        while i < actions.len()
            invariant
                i <= actions.len(),
                self@.well_formed(),
                self@ == old(self)@.perform_all(view_actions(actions@).take(i as int)),
            decreases actions.len() - i,
        {
            let ghost before = self@;
            assert(view_actions(actions@).take(i + 1).drop_last() =~= view_actions(actions@).take(
                i as int,
            ));
            match &actions[i] {
                Action::Deliver { to, packet } => {
                    self.send(*to, packet.duplicate());
                },
                Action::Report(event) => {
                    self.events.push(event.duplicate());
                    assert(self@ =~~= before.perform(actions@[i as int]@));
                },
            }
            i += 1;
        }
        assert(view_actions(actions@).take(actions.len() as int) =~= view_actions(actions@));
    }

    /// The position of the relay to act next, if any has a packet waiting.
    fn busy(&self) -> (next: Option<usize>)
        requires
            self@.well_formed(),
        ensures
            match next {
                Some(i) => self@.busy() == Some(i as int) && self@.first_waiting(i as int),
                None => self@.busy() is None,
            },
    {
        let mut i: usize = 0;
        while i < self.relays.len()
            invariant
                i <= self.relays.len(),
                self@.well_formed(),
                forall|j: int| 0 <= j < i ==> !self@.waiting(j),
            decreases self.relays.len() - i,
        {
            let id = self.relays[i].id();
            if self.inboxes[id as usize].len() > 0 {
                assert(self@.first_waiting(i as int));
                return Some(i);
            }
            i += 1;
        }
        None
    }

    /// Tells whether no relay has a packet waiting.
    pub fn is_quiet(&self) -> (quiet: bool)
        requires
            self@.well_formed(),
        ensures
            quiet == (self@.busy() is None),
    {
        self.busy().is_none()
    }

    /// Lets the relay that is to act next take the first packet from its
    /// queue and react to it. Tells whether a relay has acted.
    pub fn step(&mut self, draw: u32) -> (acted: bool)
        requires
            old(self)@.well_formed(),
        ensures
            final(self)@ == old(self)@.step(draw),
            acted == (old(self)@.busy() is Some),
            final(self)@.well_formed(),
    {
        match self.busy() {
            None => false,
            Some(i) => {
                let id = self.relays[i].id();
                let packet = self.inboxes[id as usize].remove(0);
                let actions = self.relays[i].handle_packet(packet, draw);
                proof {
                    let relay = old(self)@.relays[i as int];
                    let middle = NetworkState {
                        relays: old(self)@.relays.update(i as int, relay.after(packet@)),
                        inboxes: old(self)@.inboxes.update(
                            relay.id as int,
                            old(self)@.inbox(relay.id).skip(1),
                        ),
                        ..old(self)@
                    };
                    assert(self@ =~~= middle);
                }
                self.perform_all(&actions);
                true
            },
        }
    }

    /// Lets relays act until none has a packet waiting, or `fuel` packets
    /// have been handled.
    pub fn settle(&mut self, fuel: usize, draw: u32)
        requires
            old(self)@.well_formed(),
        ensures
            final(self)@ == old(self)@.settle(fuel as nat, draw),
            final(self)@.well_formed(),
    {
        let mut left: usize = fuel;
        while left > 0
            invariant
                self@.well_formed(),
                self@.settle(left as nat, draw) == old(self)@.settle(fuel as nat, draw),
            decreases left,
        {
            if !self.step(draw) {
                return ;
            }
            left -= 1;
        }
    }

    /// Listens at `probe`: takes the first of what waits there, if anything
    /// does.
    pub fn listen(&mut self, probe: Probe) -> (heard: Option<Message>)
        requires
            old(self)@.well_formed(),
        ensures
            (
                match heard {
                    Some(message) => Some(message@),
                    None => None,
                },
                final(self)@,
            ) == old(self)@.listen(probe),
            final(self)@.well_formed(),
    {
        match probe {
            Probe::Inbox(node) => {
                if self.inboxes[node as usize].len() > 0 {
                    let packet = self.inboxes[node as usize].remove(0);
                    assert(self@ =~~= old(self)@.listen(probe).1);
                    Some(Message::Packet(packet))
                } else {
                    None
                }
            },
            Probe::Events => {
                if self.events.len() > 0 {
                    let event = self.events.remove(0);
                    assert(self@ =~~= old(self)@.listen(probe).1);
                    Some(Message::Event(event))
                } else {
                    None
                }
            },
            Probe::Commands => {
                if self.commands.len() > 0 {
                    let command = self.commands.remove(0);
                    assert(self@ =~~= old(self)@.listen(probe).1);
                    Some(Message::Command(command))
                } else {
                    None
                }
            },
        }
    }
}

/// Runs `scenario` on a network of relays as this crate defines them, and
/// gives the verdict. Before the harness listens, and at every pause, the
/// network settles; `fuel` bounds the packets handled each time. `draw` is
/// the number that every fault decision is taken on.
pub fn run(scenario: &Scenario, fuel: usize, draw: u32) -> (verdict: Result<(), Failure>)
    ensures
        verdict == verdict_of(scenario@.script, scenario@.relays, fuel as nat, draw),
{
    let mut harness = Harness::new(scenario);
    let mut network = Network::new(&scenario.relays);
    loop
        invariant
            network@.well_formed(),
            run_from(harness@, network@, fuel as nat, draw) == verdict_of(
                scenario@.script,
                scenario@.relays,
                fuel as nat,
                draw,
            ),
        decreases
                harness@.script.len() - harness@.position,
                if harness@.failure is Some {
                    0nat
                } else {
                    1nat
                },
    {
        match harness.directive() {
            Directive::Passed => {
                return Ok(());
            },
            Directive::Failed(failure) => {
                return Err(failure);
            },
            Directive::Send { to, packet } => {
                network.send(to, packet);
                harness.report(Outcome::Done);
            },
            Directive::Command(command) => {
                network.command(command);
                harness.report(Outcome::Done);
            },
            Directive::Pause => {
                network.settle(fuel, draw);
                harness.report(Outcome::Done);
            },
            Directive::Listen(probe) => {
                network.settle(fuel, draw);
                match network.listen(probe) {
                    Some(message) => harness.report(Outcome::Heard(message)),
                    None => harness.report(Outcome::Silence),
                }
            },
        }
    }
}

} // verus!
