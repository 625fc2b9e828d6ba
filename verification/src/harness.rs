//! Scenarios that put relays to the test, and the decisions of the harness
//! that runs them.
//!
//! A [`Scenario`] names the relays to set up and gives a script: packets and
//! commands to send, pauses, and what to expect where. Whoever owns the
//! queues carries the script out, and the [`Harness`] decides: it says what
//! to do next, is told how that has ended, and gives the verdict. Where
//! several messages are valid at one point, as after a fan-out, a step lists
//! all of them and any one is accepted.

use crate::fault::DropRate;
use crate::packet::{Command, Event, EventView, NodeId, Packet, PacketView};
use vstd::prelude::*;

verus! {

/// Mathematical model of a [`Message`].
#[verifier::ext_equal]
pub enum MessageView {
    Packet(PacketView),
    Event(EventView),
    Command(Command),
}

/// Something that can be heard on a queue.
#[derive(Clone, Debug, PartialEq, Eq)]
pub enum Message {
    Packet(Packet),
    Event(Event),
    Command(Command),
}

impl View for Message {
    type V = MessageView;

    open spec fn view(&self) -> MessageView {
        match *self {
            Message::Packet(packet) => MessageView::Packet(packet@),
            Message::Event(event) => MessageView::Event(event@),
            Message::Command(command) => MessageView::Command(command),
        }
    }
}

/// The models of a list of messages, in its order.
pub open spec fn view_messages(messages: Seq<Message>) -> Seq<MessageView> {
    messages.map_values(|message: Message| message@)
}

impl Message {
    /// A copy of this message.
    pub fn duplicate(&self) -> (copy: Message)
        ensures
            copy@ == self@,
    {
        match self {
            Message::Packet(packet) => Message::Packet(packet.duplicate()),
            Message::Event(event) => Message::Event(event.duplicate()),
            Message::Command(command) => Message::Command(*command),
        }
    }

    /// Tells whether both messages are of the same kind and hold the same.
    pub fn same_as(&self, other: &Message) -> (same: bool)
        ensures
            same == (self@ == other@),
    {
        match (self, other) {
            (Message::Packet(a), Message::Packet(b)) => a.same_as(b),
            (Message::Event(a), Message::Event(b)) => a.same_as(b),
            (Message::Command(a), Message::Command(b)) => *a == *b,
            _ => false,
        }
    }

    /// Tells whether this message is one of `expected`.
    pub fn matches_any(&self, expected: &Vec<Message>) -> (found: bool)
        ensures
            found == view_messages(expected@).contains(self@),
    {
        let mut i: usize = 0;
        while i < expected.len()
            invariant
                i <= expected.len(),
                forall|k: int| 0 <= k < i ==> view_messages(expected@)[k] != self@,
            decreases expected.len() - i,
        {
            if self.same_as(&expected[i]) {
                assert(view_messages(expected@)[i as int] == self@);
                return true;
            }
            i += 1;
        }
        false
    }
}

/// Copies a list of messages.
pub fn duplicate_messages(messages: &Vec<Message>) -> (copy: Vec<Message>)
    ensures
        view_messages(copy@) == view_messages(messages@),
{
    let mut copy: Vec<Message> = Vec::new();
    let mut i: usize = 0;
    while i < messages.len()
        invariant
            i <= messages.len(),
            copy@.len() == i,
            forall|k: int| 0 <= k < i ==> copy@[k]@ == messages@[k]@,
        decreases messages.len() - i,
    {
        copy.push(messages[i].duplicate());
        i += 1;
    }
    assert(view_messages(copy@) =~= view_messages(messages@));
    copy
}

/// A place where the harness listens.
#[derive(Clone, Copy, Debug, PartialEq, Eq, Structural)]
pub enum Probe {
    /// The inbound queue of a node that is no relay of the scenario: a
    /// client, a server, or a stand-in for a relay.
    Inbox(NodeId),
    /// The queue on which the relays report to the controller.
    Events,
    /// The queue on which the controller's commands reach the relays.
    Commands,
}

/// Mathematical model of a [`RelaySetup`].
#[verifier::ext_equal]
pub struct RelaySetupView {
    pub id: NodeId,
    pub neighbors: Seq<NodeId>,
    pub drop_threshold: nat,
}

/// A relay to set up: its id, its neighbors and its drop rate.
#[derive(Clone, Debug, PartialEq, Eq)]
pub struct RelaySetup {
    pub id: NodeId,
    pub neighbors: Vec<NodeId>,
    pub drop_rate: DropRate,
}

impl View for RelaySetup {
    type V = RelaySetupView;

    open spec fn view(&self) -> RelaySetupView {
        RelaySetupView {
            id: self.id,
            neighbors: self.neighbors@,
            drop_threshold: self.drop_rate.threshold(),
        }
    }
}

/// Mathematical model of a [`Step`].
#[verifier::ext_equal]
pub enum StepView {
    Send { to: NodeId, packet: PacketView },
    Command(Command),
    Pause,
    Expect { at: Probe, any_of: Seq<MessageView> },
}

/// One step of a script.
#[derive(Clone, Debug, PartialEq, Eq)]
pub enum Step {
    /// Put the packet on the inbound queue of `to`.
    Send { to: NodeId, packet: Packet },
    /// Put the command on the command queue.
    Command(Command),
    /// Give the network time to come to rest.
    Pause,
    /// Listen at `at` for one message, within the time limit. It must be one
    /// of `any_of`.
    Expect { at: Probe, any_of: Vec<Message> },
}

impl View for Step {
    type V = StepView;

    open spec fn view(&self) -> StepView {
        match *self {
            Step::Send { to, packet } => StepView::Send { to, packet: packet@ },
            Step::Command(command) => StepView::Command(command),
            Step::Pause => StepView::Pause,
            Step::Expect { at, any_of } => StepView::Expect {
                at,
                any_of: view_messages(any_of@),
            },
        }
    }
}

impl Step {
    /// A copy of this step.
    pub fn duplicate(&self) -> (copy: Step)
        ensures
            copy@ == self@,
    {
        match self {
            Step::Send { to, packet } => Step::Send { to: *to, packet: packet.duplicate() },
            Step::Command(command) => Step::Command(*command),
            Step::Pause => Step::Pause,
            Step::Expect { at, any_of } => Step::Expect {
                at: *at,
                any_of: duplicate_messages(any_of),
            },
        }
    }
}

/// The models of a list of relay setups, in its order.
pub open spec fn view_relays(relays: Seq<RelaySetup>) -> Seq<RelaySetupView> {
    relays.map_values(|relay: RelaySetup| relay@)
}

/// The models of a list of steps, in its order.
pub open spec fn view_script(script: Seq<Step>) -> Seq<StepView> {
    script.map_values(|step: Step| step@)
}

/// Mathematical model of a [`Scenario`].
#[verifier::ext_equal]
pub struct ScenarioView {
    pub relays: Seq<RelaySetupView>,
    pub script: Seq<StepView>,
}

/// A test of relays: the relays to set up, and the script to run on them.
/// Every node that the scenario names and that is none of its relays is a
/// passive endpoint: it has an inbound queue, at which the harness can listen.
#[derive(Clone, Debug, PartialEq, Eq)]
pub struct Scenario {
    pub relays: Vec<RelaySetup>,
    pub script: Vec<Step>,
}

impl View for Scenario {
    type V = ScenarioView;

    open spec fn view(&self) -> ScenarioView {
        ScenarioView { relays: view_relays(self.relays@), script: view_script(self.script@) }
    }
}

impl Scenario {
    /// A scenario without relays and with an empty script.
    pub fn new() -> (scenario: Scenario)
        ensures
            scenario@ == (ScenarioView { relays: Seq::empty(), script: Seq::empty() }),
    {
        let scenario = Scenario { relays: Vec::new(), script: Vec::new() };
        assert(scenario@.relays =~= Seq::empty());
        assert(scenario@.script =~= Seq::empty());
        scenario
    }

    /// Adds a relay to set up.
    pub fn relay(&mut self, id: NodeId, neighbors: Vec<NodeId>, drop_rate: DropRate)
        ensures
            final(self)@.relays == old(self)@.relays.push(
                RelaySetupView {
                    id,
                    neighbors: neighbors@,
                    drop_threshold: drop_rate.threshold(),
                },
            ),
            final(self)@.script == old(self)@.script,
    {
        let setup = RelaySetup { id, neighbors, drop_rate };
        self.relays.push(setup);
        assert(view_relays(self.relays@) =~= view_relays(old(self).relays@).push(setup@));
    }

    /// Adds `step` at the end of the script.
    pub fn step(&mut self, step: Step)
        ensures
            final(self)@.script == old(self)@.script.push(step@),
            final(self)@.relays == old(self)@.relays,
    {
        self.script.push(step);
        assert(view_script(self.script@) =~= view_script(old(self).script@).push(step@));
    }

    /// Adds the step that puts `packet` on the inbound queue of `to`.
    pub fn send(&mut self, to: NodeId, packet: Packet)
        ensures
            final(self)@.script == old(self)@.script.push(StepView::Send { to, packet: packet@ }),
            final(self)@.relays == old(self)@.relays,
    {
        self.step(Step::Send { to, packet });
    }

    /// Adds the step that puts `command` on the command queue.
    pub fn command(&mut self, command: Command)
        ensures
            final(self)@.script == old(self)@.script.push(StepView::Command(command)),
            final(self)@.relays == old(self)@.relays,
    {
        self.step(Step::Command(command));
    }

    /// Adds a pause.
    pub fn pause(&mut self)
        ensures
            final(self)@.script == old(self)@.script.push(StepView::Pause),
            final(self)@.relays == old(self)@.relays,
    {
        self.step(Step::Pause);
    }

    /// Adds the step that listens at `at` for one of `any_of`.
    pub fn expect(&mut self, at: Probe, any_of: Vec<Message>)
        ensures
            final(self)@.script == old(self)@.script.push(
                StepView::Expect { at, any_of: view_messages(any_of@) },
            ),
            final(self)@.relays == old(self)@.relays,
    {
        self.step(Step::Expect { at, any_of });
    }
}

/// Copies a script.
pub fn duplicate_script(script: &Vec<Step>) -> (copy: Vec<Step>)
    ensures
        view_script(copy@) == view_script(script@),
{
    let mut copy: Vec<Step> = Vec::new();
    let mut i: usize = 0;
    while i < script.len()
        invariant
            i <= script.len(),
            copy@.len() == i,
            forall|k: int| 0 <= k < i ==> copy@[k]@ == script@[k]@,
        decreases script.len() - i,
    {
        copy.push(script[i].duplicate());
        i += 1;
    }
    assert(view_script(copy@) =~= view_script(script@));
    copy
}

/// Why a scenario has failed. `step` is the position in the script of the
/// step that has failed.
#[derive(Clone, Copy, Debug, PartialEq, Eq, Structural)]
pub enum Failure {
    /// Nothing was heard within the time limit.
    TimedOut { step: usize },
    /// What was heard is none of the messages that the step accepts.
    Unexpected { step: usize },
    /// The queue that the step writes to has no reader left.
    Undelivered { step: usize },
}

/// Mathematical model of an [`Outcome`].
#[verifier::ext_equal]
pub enum OutcomeView {
    Done,
    Heard(MessageView),
    Silence,
    Undelivered,
}

/// How carrying out a directive has ended.
#[derive(Clone, Debug, PartialEq, Eq)]
pub enum Outcome {
    /// What was to be sent has been sent, or the pause is over.
    Done,
    /// Listening has brought this message.
    Heard(Message),
    /// Listening has brought nothing within the time limit.
    Silence,
    /// What was to be sent could not be sent: the queue has no reader left.
    Undelivered,
}

impl View for Outcome {
    type V = OutcomeView;

    open spec fn view(&self) -> OutcomeView {
        match *self {
            Outcome::Done => OutcomeView::Done,
            Outcome::Heard(message) => OutcomeView::Heard(message@),
            Outcome::Silence => OutcomeView::Silence,
            Outcome::Undelivered => OutcomeView::Undelivered,
        }
    }
}

impl Outcome {
    /// A copy of this outcome.
    pub fn duplicate(&self) -> (copy: Outcome)
        ensures
            copy@ == self@,
    {
        match self {
            Outcome::Done => Outcome::Done,
            Outcome::Heard(message) => Outcome::Heard(message.duplicate()),
            Outcome::Silence => Outcome::Silence,
            Outcome::Undelivered => Outcome::Undelivered,
        }
    }
}

/// The models of a list of outcomes, in its order.
pub open spec fn view_outcomes(outcomes: Seq<Outcome>) -> Seq<OutcomeView> {
    outcomes.map_values(|outcome: Outcome| outcome@)
}

/// Mathematical model of a [`Directive`].
#[verifier::ext_equal]
pub enum DirectiveView {
    Send { to: NodeId, packet: PacketView },
    Command(Command),
    Pause,
    Listen(Probe),
    Passed,
    Failed(Failure),
}

/// What the harness asks to be done next.
#[derive(Clone, Debug, PartialEq, Eq)]
pub enum Directive {
    /// Put the packet on the inbound queue of `to`.
    Send { to: NodeId, packet: Packet },
    /// Put the command on the command queue.
    Command(Command),
    /// Give the network time to come to rest.
    Pause,
    /// Listen at the probe for one message, within the time limit.
    Listen(Probe),
    /// Nothing: the script has run to its end and every expectation was met.
    Passed,
    /// Nothing: a step has failed.
    Failed(Failure),
}

impl View for Directive {
    type V = DirectiveView;

    open spec fn view(&self) -> DirectiveView {
        match *self {
            Directive::Send { to, packet } => DirectiveView::Send { to, packet: packet@ },
            Directive::Command(command) => DirectiveView::Command(command),
            Directive::Pause => DirectiveView::Pause,
            Directive::Listen(probe) => DirectiveView::Listen(probe),
            Directive::Passed => DirectiveView::Passed,
            Directive::Failed(failure) => DirectiveView::Failed(failure),
        }
    }
}

/// Mathematical model of a [`Harness`].
#[verifier::ext_equal]
pub struct HarnessState {
    pub script: Seq<StepView>,
    /// The position of the step to take next.
    pub position: nat,
    pub failure: Option<Failure>,
}

impl HarnessState {
    /// The run is over: a step has failed, or the script is at its end.
    pub open spec fn finished(self) -> bool {
        self.failure is Some || self.position >= self.script.len()
    }

    /// What is to be done next.
    pub open spec fn directive(self) -> DirectiveView {
        if self.failure is Some {
            DirectiveView::Failed(self.failure->0)
        } else if self.position >= self.script.len() {
            DirectiveView::Passed
        } else {
            match self.script[self.position as int] {
                StepView::Send { to, packet } => DirectiveView::Send { to, packet },
                StepView::Command(command) => DirectiveView::Command(command),
                StepView::Pause => DirectiveView::Pause,
                StepView::Expect { at, .. } => DirectiveView::Listen(at),
            }
        }
    }

    /// The state once the directive has been carried out and has ended in
    /// `outcome`.
    ///
    /// Where the directive was to listen, a message that the step accepts
    /// leads on to the next step; any other message fails the step as
    /// unexpected, and every other outcome as timed out. Where it was to send
    /// a packet or a command, the step fails if that could not be delivered,
    /// and any other outcome leads on. A pause leads on whatever the outcome.
    /// Once the run is over, nothing changes any more.
    pub open spec fn after(self, outcome: OutcomeView) -> HarnessState {
        let step = self.position as usize;
        let onward = HarnessState { position: self.position + 1, ..self };
        if self.finished() {
            self
        } else {
            match self.script[self.position as int] {
                StepView::Expect { any_of, .. } => match outcome {
                    OutcomeView::Heard(message) => if any_of.contains(message) {
                        onward
                    } else {
                        HarnessState { failure: Some(Failure::Unexpected { step }), ..self }
                    },
                    _ => HarnessState { failure: Some(Failure::TimedOut { step }), ..self },
                },
                StepView::Pause => onward,
                _ => match outcome {
                    OutcomeView::Undelivered => HarnessState {
                        failure: Some(Failure::Undelivered { step }),
                        ..self
                    },
                    _ => onward,
                },
            }
        }
    }

    /// The state once one directive after the other has been carried out,
    /// with the given outcomes.
    pub open spec fn after_all(self, outcomes: Seq<OutcomeView>) -> HarnessState
        decreases outcomes.len(),
    {
        if outcomes.len() == 0 {
            self
        } else {
            self.after_all(outcomes.drop_last()).after(outcomes.last())
        }
    }

    /// The verdict, once the run is over.
    pub open spec fn verdict(self) -> Option<Result<(), Failure>> {
        if self.failure is Some {
            Some(Err(self.failure->0))
        } else if self.position >= self.script.len() {
            Some(Ok(()))
        } else {
            None
        }
    }
}

/// The harness at the start of `script`.
pub open spec fn at_start(script: Seq<StepView>) -> HarnessState {
    HarnessState { script, position: 0, failure: None }
}

/// The outcome is what the step asks for: where it listens, a message that
/// it accepts; where it sends, anything but that it could not be delivered;
/// where it pauses, anything.
pub open spec fn meets(step: StepView, outcome: OutcomeView) -> bool {
    match step {
        StepView::Expect { any_of, .. } => outcome is Heard && any_of.contains(outcome->Heard_0),
        StepView::Pause => true,
        _ => !(outcome is Undelivered),
    }
}

/// The failure that the step at position `step` ends in on an outcome that
/// does not meet it.
pub open spec fn failure_of(step: StepView, position: usize, outcome: OutcomeView) -> Failure {
    match step {
        StepView::Expect { .. } => if outcome is Heard {
            Failure::Unexpected { step: position }
        } else {
            Failure::TimedOut { step: position }
        },
        _ => Failure::Undelivered { step: position },
    }
}

/// `first` is the position of the first step that its outcome does not meet.
pub open spec fn first_unmet(script: Seq<StepView>, outcomes: Seq<OutcomeView>, first: int) -> bool {
    &&& 0 <= first < script.len()
    &&& first < outcomes.len()
    &&& !meets(script[first], outcomes[first])
    &&& forall|k: int| 0 <= k < first ==> meets(#[trigger] script[k], outcomes[k])
}

proof fn lemma_run(script: Seq<StepView>, outcomes: Seq<OutcomeView>)
    requires
        outcomes.len() <= script.len(),
    ensures
        (forall|k: int| 0 <= k < outcomes.len() ==> meets(#[trigger] script[k], outcomes[k]))
            ==> at_start(script).after_all(outcomes) == (HarnessState {
            script,
            position: outcomes.len(),
            failure: None,
        }),
        forall|first: int|
            first_unmet(script, outcomes, first) ==> at_start(script).after_all(outcomes)
                == (HarnessState {
                script,
                position: first as nat,
                failure: Some(failure_of(script[first], first as usize, outcomes[first])),
            }),
    decreases outcomes.len(),
{
    if outcomes.len() > 0 {
        let front = outcomes.drop_last();
        let last = outcomes.len() - 1;
        lemma_run(script, front);
        let before = at_start(script).after_all(front);
        if forall|k: int| 0 <= k < front.len() ==> meets(#[trigger] script[k], front[k]) {
            assert(before.position == last);
            assert forall|first: int| first_unmet(script, outcomes, first) implies first
                == last by {
                if first < last {
                    assert(meets(script[first], front[first]));
                }
            }
            if forall|k: int| 0 <= k < outcomes.len() ==> meets(#[trigger] script[k], outcomes[k]) {
                assert(meets(script[last], outcomes[last]));
            }
        } else {
            let k = choose|k: int| 0 <= k < front.len() && !meets(#[trigger] script[k], front[k]);
            let first = least_unmet(script, front, k);
            assert(first_unmet(script, front, first));
            assert(before.failure is Some);
            assert(!meets(script[first], outcomes[first]));
            assert forall|other: int| first_unmet(script, outcomes, other) implies other
                == first by {
                if other < first {
                    assert(meets(script[other], outcomes[other]));
                } else if first < other {
                    assert(meets(script[first], outcomes[first]));
                }
            }
        }
    }
}

proof fn least_unmet(script: Seq<StepView>, outcomes: Seq<OutcomeView>, some: int) -> (first: int)
    requires
        0 <= some < outcomes.len() <= script.len(),
        !meets(script[some], outcomes[some]),
    ensures
        first_unmet(script, outcomes, first),
        first <= some,
    decreases some,
{
    if exists|k: int| 0 <= k < some && !meets(#[trigger] script[k], outcomes[k]) {
        let k = choose|k: int| 0 <= k < some && !meets(#[trigger] script[k], outcomes[k]);
        least_unmet(script, outcomes, k)
    } else {
        some
    }
}

/// A run passes exactly if every step of the script has been taken and the
/// outcome of each is what the step asks for. It fails at the first step
/// whose outcome is not: as unexpected where a message was heard that the
/// step does not accept, as timed out where nothing was heard, and as
/// undelivered where what the step sends could not be delivered.
pub proof fn law_verdict_is_that_of_the_first_unmet_step(
    script: Seq<StepView>,
    outcomes: Seq<OutcomeView>,
)
    requires
        outcomes.len() <= script.len(),
        script.len() <= usize::MAX,
    ensures
        at_start(script).after_all(outcomes).verdict() == Some(Ok::<(), Failure>(())) <==> (
        outcomes.len() == script.len() && forall|k: int|
            0 <= k < script.len() ==> meets(#[trigger] script[k], outcomes[k])),
        forall|first: int|
            first_unmet(script, outcomes, first) ==> at_start(script).after_all(
                outcomes,
            ).verdict() == Some(
                Err::<(), Failure>(failure_of(script[first], first as usize, outcomes[first])),
            ),
{
    lemma_run(script, outcomes);
    if !(forall|k: int| 0 <= k < outcomes.len() ==> meets(#[trigger] script[k], outcomes[k])) {
        let k = choose|k: int| 0 <= k < outcomes.len() && !meets(#[trigger] script[k], outcomes[k]);
        let first = least_unmet(script, outcomes, k);
        assert(first_unmet(script, outcomes, first));
    }
}

/// The decisions of a test run: it walks through the script of a scenario.
#[derive(Debug)]
pub struct Harness {
    script: Vec<Step>,
    position: usize,
    failure: Option<Failure>,
}

impl View for Harness {
    type V = HarnessState;

    closed spec fn view(&self) -> HarnessState {
        HarnessState {
            script: view_script(self.script@),
            position: self.position as nat,
            failure: self.failure,
        }
    }
}

impl Harness {
    /// A harness at the start of the script of `scenario`.
    pub fn new(scenario: &Scenario) -> (harness: Harness)
        ensures
            harness@ == at_start(scenario@.script),
    {
        Harness { script: duplicate_script(&scenario.script), position: 0, failure: None }
    }

    /// What is to be done next.
    pub fn directive(&self) -> (directive: Directive)
        ensures
            directive@ == self@.directive(),
    {
        match self.failure {
            Some(failure) => Directive::Failed(failure),
            None => if self.position >= self.script.len() {
                Directive::Passed
            } else {
                match &self.script[self.position] {
                    Step::Send { to, packet } => Directive::Send {
                        to: *to,
                        packet: packet.duplicate(),
                    },
                    Step::Command(command) => Directive::Command(*command),
                    Step::Pause => Directive::Pause,
                    Step::Expect { at, .. } => Directive::Listen(*at),
                }
            },
        }
    }

    /// Takes note that the directive has been carried out and how that has
    /// ended.
    pub fn report(&mut self, outcome: Outcome)
        ensures
            final(self)@ == old(self)@.after(outcome@),
    {
        if self.failure.is_some() || self.position >= self.script.len() {
            return ;
        }
        let step = self.position;
        match &self.script[step] {
            Step::Expect { any_of, .. } => {
                match outcome {
                    Outcome::Heard(message) => {
                        if message.matches_any(any_of) {
                            self.position = step + 1;
                        } else {
                            self.failure = Some(Failure::Unexpected { step });
                        }
                    },
                    _ => {
                        self.failure = Some(Failure::TimedOut { step });
                    },
                }
            },
            Step::Pause => {
                self.position = step + 1;
            },
            _ => {
                match outcome {
                    Outcome::Undelivered => {
                        self.failure = Some(Failure::Undelivered { step });
                    },
                    _ => {
                        self.position = step + 1;
                    },
                }
            },
        }
    }

    /// The verdict, once the run is over; `None` while it is under way.
    pub fn verdict(&self) -> (verdict: Option<Result<(), Failure>>)
        ensures
            verdict == self@.verdict(),
    {
        match self.failure {
            Some(failure) => Some(Err(failure)),
            None => if self.position >= self.script.len() {
                Some(Ok(()))
            } else {
                None
            },
        }
    }
}

} // verus!
