//! Scenarios run on relays that live on threads of their own.
//!
//! A [`Wiring`] holds one channel for each node, one for the reports to the
//! controller and one for its commands. Whoever starts the relays hands them
//! their ends of these channels; [`drive`] then carries out the script of a
//! scenario on the channels and lets the [`Harness`] judge what is heard.

use crate::channels::{channel, receive_within, send};
use crate::harness::{
    at_start, view_outcomes, Directive, DirectiveView, Failure, Harness, HarnessState, Message,
    Outcome, OutcomeView, Probe, Scenario,
};
use crate::network::NODE_COUNT;
use crate::packet::{Command, Event, NodeId, Packet};
use crossbeam::channel::{Receiver, Sender};
use vstd::prelude::*;

verus! {

/// How long the harness listens for one message, in milliseconds.
pub const TIMEOUT_MS: u32 = 400;

/// How long a pause of the script lasts, in milliseconds.
pub const PAUSE_MS: u32 = 300;

/// The two ends of one channel.
#[verifier::reject_recursive_types(T)]
pub struct Link<T> {
    sender: Sender<T>,
    receiver: Receiver<T>,
}

impl<T> Link<T> {
    /// The writing end of this channel.
    pub closed spec fn writing_end(self) -> Sender<T> {
        self.sender
    }

    /// The reading end of this channel.
    pub closed spec fn reading_end(self) -> Receiver<T> {
        self.receiver
    }

    /// A new channel, with nothing in it.
    pub(crate) fn new() -> (link: Link<T>) {
        let (sender, receiver) = channel();
        Link { sender, receiver }
    }

    /// The writing end of this channel.
    pub fn sender(&self) -> (sender: &Sender<T>)
        ensures
            *sender == self.writing_end(),
    {
        &self.sender
    }

    /// The reading end of this channel.
    pub fn receiver(&self) -> (receiver: &Receiver<T>)
        ensures
            *receiver == self.reading_end(),
    {
        &self.receiver
    }
}

/// The channels of a network: the inbound queue of every node, the queue of
/// reports to the controller and the queue of its commands.
pub struct Wiring {
    inboxes: Vec<Link<Packet>>,
    events: Link<Event>,
    commands: Link<Command>,
    silence: Link<Command>,
}

impl Wiring {
    #[verifier::type_invariant]
    spec fn complete(self) -> bool {
        self.inboxes@.len() == NODE_COUNT
    }

    /// The number of nodes that have an inbound queue here, counted from
    /// node 0 on.
    pub closed spec fn wired_nodes(self) -> nat {
        self.inboxes@.len()
    }

    /// The inbound queue of `node`.
    pub closed spec fn inbox_of(self, node: NodeId) -> Link<Packet> {
        self.inboxes@[node as int]
    }

    /// The queue of reports to the controller.
    pub closed spec fn event_queue(self) -> Link<Event> {
        self.events
    }

    /// The queue of commands of the controller.
    pub closed spec fn command_queue(self) -> Link<Command> {
        self.commands
    }

    /// New channels for a network: an inbound queue for each of the
    /// [`NODE_COUNT`] node ids, the queue of reports and the queue of
    /// commands. Of the channels themselves nothing is known here.
    pub fn new() -> (wiring: Wiring)
        ensures
            wiring.wired_nodes() == NODE_COUNT,
    {
        let mut inboxes: Vec<Link<Packet>> = Vec::new();
        let mut node: usize = 0;
        while node < NODE_COUNT
            invariant
                node <= NODE_COUNT,
                inboxes@.len() == node,
            decreases NODE_COUNT - node,
        {
            inboxes.push(Link::new());
            node += 1;
        }
        Wiring { inboxes, events: Link::new(), commands: Link::new(), silence: Link::new() }
    }

    /// The inbound queue of `node`.
    pub fn inbox(&self, node: NodeId) -> (link: &Link<Packet>)
        ensures
            *link == self.inbox_of(node),
            self.wired_nodes() == NODE_COUNT,
    {
        proof {
            use_type_invariant(self);
        }
        &self.inboxes[node as usize]
    }

    /// The queue of reports to the controller.
    pub fn events(&self) -> (link: &Link<Event>)
        ensures
            *link == self.event_queue(),
    {
        &self.events
    }

    /// The queue of commands of the controller.
    pub fn commands(&self) -> (link: &Link<Command>)
        ensures
            *link == self.command_queue(),
    {
        &self.commands
    }

    /// Carries out one directive on the channels and tells how that has
    /// ended.
    fn perform(&self, directive: Directive, listen_ms: u32, pause_ms: u32) -> (outcome: Outcome)
        requires
            !(directive@ is Passed),
            !(directive@ is Failed),
        ensures
            fits(directive@, outcome@),
    {
        match directive {
            Directive::Send { to, packet } => {
                if send(self.inbox(to).sender(), packet) {
                    Outcome::Done
                } else {
                    Outcome::Undelivered
                }
            },
            Directive::Command(command) => {
                if send(self.commands.sender(), command) {
                    Outcome::Done
                } else {
                    Outcome::Undelivered
                }
            },
            Directive::Pause => {
                let _ = receive_within(self.silence.receiver(), pause_ms);
                Outcome::Done
            },
            Directive::Listen(Probe::Inbox(node)) => {
                match receive_within(self.inbox(node).receiver(), listen_ms) {
                    Some(packet) => Outcome::Heard(Message::Packet(packet)),
                    None => Outcome::Silence,
                }
            },
            Directive::Listen(Probe::Events) => {
                match receive_within(self.events.receiver(), listen_ms) {
                    Some(event) => Outcome::Heard(Message::Event(event)),
                    None => Outcome::Silence,
                }
            },
            Directive::Listen(Probe::Commands) => {
                match receive_within(self.commands.receiver(), listen_ms) {
                    Some(command) => Outcome::Heard(Message::Command(command)),
                    None => Outcome::Silence,
                }
            },
            _ => Outcome::Done,
        }
    }
}

/// The outcome is one that carrying out the directive can end in: a message
/// or silence after listening, and otherwise that it is done or, for what is
/// sent, that it could not be delivered. What is heard at a queue of packets
/// is a packet, at the queue of reports a report, and at the queue of
/// commands a command.
pub open spec fn fits(directive: DirectiveView, outcome: OutcomeView) -> bool {
    match directive {
        DirectiveView::Listen(probe) => match outcome {
            OutcomeView::Heard(message) => match probe {
                Probe::Inbox(_) => message is Packet,
                Probe::Events => message is Event,
                Probe::Commands => message is Command,
            },
            OutcomeView::Silence => true,
            _ => false,
        },
        DirectiveView::Pause => outcome is Done,
        DirectiveView::Send { .. } => outcome is Done || outcome is Undelivered,
        DirectiveView::Command(_) => outcome is Done || outcome is Undelivered,
        _ => false,
    }
}

/// What a run has brought: the verdict, and how each step that was taken
/// has ended.
#[derive(Debug, PartialEq, Eq)]
pub struct RunRecord {
    pub verdict: Result<(), Failure>,
    pub outcomes: Vec<Outcome>,
}

/// Carries out the script of `scenario` on the channels of `wiring`, step by
/// step until the script is at its end or an expectation has failed. The
/// harness listens for `listen_ms` milliseconds at most, and a pause lasts
/// `pause_ms` milliseconds.
///
/// What is heard depends on the relays at the other ends of the channels
/// and on the clock. Whatever it is, the record holds the outcome of every
/// step taken, each of a kind that fits its step, and the verdict is the one
/// that the harness reaches on these outcomes.
pub fn drive(scenario: &Scenario, wiring: &Wiring, listen_ms: u32, pause_ms: u32) -> (record:
    RunRecord)
    ensures
        at_start(scenario@.script).after_all(view_outcomes(record.outcomes@)).verdict() == Some(
            record.verdict,
        ),
        record.outcomes@.len() <= scenario@.script.len(),
        forall|k: int|
            0 <= k < record.outcomes@.len() ==> fits(
                (HarnessState { position: k as nat, ..at_start(scenario@.script) }).directive(),
                #[trigger] view_outcomes(record.outcomes@)[k],
            ),
        record.verdict is Ok ==> record.outcomes@.len() == scenario@.script.len(),
{
    let mut harness = Harness::new(scenario);
    let mut outcomes: Vec<Outcome> = Vec::new();
    assert(view_outcomes(outcomes@) =~= Seq::empty());
    loop
        invariant
            harness@ == at_start(scenario@.script).after_all(view_outcomes(outcomes@)),
            harness@.script == scenario@.script,
            outcomes@.len() <= scenario@.script.len(),
            harness@.failure is None ==> harness@.position == outcomes@.len(),
            forall|k: int|
                0 <= k < outcomes@.len() ==> fits(
                    (HarnessState { position: k as nat, ..at_start(scenario@.script) }).directive(),
                    #[trigger] view_outcomes(outcomes@)[k],
                ),
        decreases
                harness@.script.len() - harness@.position,
                if harness@.failure is Some {
                    0nat
                } else {
                    1nat
                },
    {
        let directive = harness.directive();
        match directive {
            Directive::Passed => {
                return RunRecord { verdict: Ok(()), outcomes };
            },
            Directive::Failed(failure) => {
                return RunRecord { verdict: Err(failure), outcomes };
            },
            _ => {},
        }
        let ghost before = harness@;
        let ghost heard_before = view_outcomes(outcomes@);
        let outcome = wiring.perform(directive, listen_ms, pause_ms);
        harness.report(outcome.duplicate());
        outcomes.push(outcome);
        proof {
            let heard = view_outcomes(outcomes@);
            assert(heard.drop_last() =~= heard_before);
            assert(heard.last() == outcome@);
            assert(before =~= (HarnessState {
                position: before.position,
                ..at_start(scenario@.script)
            }));
            assert forall|k: int| 0 <= k < heard.len() implies fits(
                (HarnessState { position: k as nat, ..at_start(scenario@.script) }).directive(),
                #[trigger] heard[k],
            ) by {
                if k < heard_before.len() {
                    assert(heard[k] == heard_before[k]);
                }
            }
        }
    }
}

} // verus!
