//! The channels that relays on threads talk over, as far as this crate
//! touches them. What stands here is taken on trust: the channels are those
//! of `crossbeam`, and nothing in this file is proved.

use crossbeam::channel::{unbounded, Receiver, Sender};
use std::time::Duration;
use vstd::prelude::*;

verus! {

/// `crossbeam::channel::Sender`, the writing end of a channel. Nothing is
/// known of what is inside.
#[verifier::external_type_specification]
#[verifier::external_body]
#[verifier::reject_recursive_types(T)]
pub struct ExSender<T>(Sender<T>);

/// `crossbeam::channel::Receiver`, the reading end of a channel. Nothing is
/// known of what is inside.
#[verifier::external_type_specification]
#[verifier::external_body]
#[verifier::reject_recursive_types(T)]
pub struct ExReceiver<T>(Receiver<T>);

/// Calls `crossbeam::channel::unbounded`, which makes a channel that holds
/// any number of messages, and returns its two ends. Nothing is claimed of
/// them.
#[verifier::external_body]
pub(crate) fn channel<T>() -> (ends: (Sender<T>, Receiver<T>)) {
    unbounded()
}

/// Calls `Sender::send`, which puts the message into the channel unless the
/// channel has no reading end left, and tells whether it has done so.
/// Nothing is claimed of the answer.
#[verifier::external_body]
pub(crate) fn send<T>(sender: &Sender<T>, message: T) -> (sent: bool) {
    sender.send(message).is_ok()
}

/// Calls `Receiver::recv_timeout`, which waits until a message can be taken
/// from the channel, but no longer than the given number of milliseconds,
/// and returns the message if there was one. Nothing is claimed of what
/// comes back: it depends on the clock and on who else writes to and reads
/// from the channel.
#[verifier::external_body]
pub(crate) fn receive_within<T>(receiver: &Receiver<T>, millis: u32) -> (heard: Option<T>) {
    receiver.recv_timeout(Duration::from_millis(u64::from(millis))).ok()
}

} // verus!
