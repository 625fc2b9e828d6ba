//! Scenarios that test how commands of the controller reach the relays.

use crate::fault::DropRate;
use crate::harness::{Message, MessageView, Probe, RelaySetupView, Scenario, ScenarioView, StepView};
use crate::packet::Command;
use vstd::prelude::*;

verus! {

/// The scenario of [`generic_receive_sc_command`] and of
/// [`generic_handle_crash`].
pub open spec fn crash_arrives() -> ScenarioView {
    ScenarioView {
        relays: seq![RelaySetupView { id: 11, neighbors: seq![12u8], drop_threshold: 0 }],
        script: seq![
            StepView::Command(Command::Crash),
            StepView::Expect {
                at: Probe::Commands,
                any_of: seq![MessageView::Command(Command::Crash)],
            },
        ],
    }
}

/// A command of the controller arrives on the command queue.
///
/// Relay 11 has node 12 as its only neighbor. The controller issues a crash
/// command and expects it to arrive.
pub fn generic_receive_sc_command() -> (scenario: Scenario)
    ensures
        scenario@ == crash_arrives(),
{
    let mut scenario = Scenario::new();
    scenario.relay(11, vec![12], DropRate::never());
    scenario.command(Command::Crash);
    scenario.expect(Probe::Commands, vec![Message::Command(Command::Crash)]);
    assert(scenario@ =~~= crash_arrives());
    scenario
}

/// A crash command arrives while no packet is under way.
///
/// Relay 11 has node 12 as its only neighbor. The controller issues a crash
/// command and expects it to arrive.
pub fn generic_handle_crash() -> (scenario: Scenario)
    ensures
        scenario@ == crash_arrives(),
{
    let mut scenario = Scenario::new();
    scenario.relay(11, vec![12], DropRate::never());
    scenario.command(Command::Crash);
    scenario.expect(Probe::Commands, vec![Message::Command(Command::Crash)]);
    assert(scenario@ =~~= crash_arrives());
    scenario
}

} // verus!
