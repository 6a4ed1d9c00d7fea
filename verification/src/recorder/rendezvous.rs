//! The rendezvous channel between the watcher and the controller: a bounded
//! channel that holds one notice.
//!
//! What a channel holds at a given moment depends on the thread at its
//! other end, so nothing here says what a call returns; the functions that
//! use the channel say what holds whatever came back.
use crate::engine::BusMessage;
use crate::recorder::watcher::{ends_run, judge, notice_for, Notice};
use crate::recorder::Delivery;
use crossbeam_channel::{Receiver, RecvTimeoutError, SendTimeoutError, Sender};
use std::time::Duration;
use vstd::prelude::*;

verus! {

/// The sending half of a `crossbeam_channel` channel. Verus carries it
/// through and sees nothing inside.
#[verifier::external_type_specification]
#[verifier::external_body]
#[verifier::reject_recursive_types(T)]
pub struct ExSender<T>(Sender<T>);

/// The receiving half of a `crossbeam_channel` channel. Verus carries it
/// through and sees nothing inside.
#[verifier::external_type_specification]
#[verifier::external_body]
#[verifier::reject_recursive_types(T)]
pub struct ExReceiver<T>(Receiver<T>);

/// How many notices the rendezvous channel holds.
pub const RENDEZVOUS_CAPACITY: usize = 1;

/// What became of a notice that was handed to the channel.
#[derive(Clone, Copy, Debug, PartialEq, Eq, Structural)]
pub enum Posting {
    /// It is in the channel.
    Sent,
    /// The channel stayed full until the deadline.
    TimedOut,
    /// Nobody listens any more.
    Disconnected,
}

/// How many notices the channel that `tx` sends into holds at most.
pub uninterp spec fn capacity_of(tx: Sender<Notice>) -> nat;

/// Calls `crossbeam_channel::bounded`, which makes a channel that holds up
/// to `cap` messages. It panics where `cap` is too large for its index
/// arithmetic; the capacities admitted here are far below that. The claim
/// is that the channel is made with the capacity asked for; nothing is
/// claimed of what it holds.
#[verifier::external_body]
pub(crate) fn bounded(cap: usize) -> (res: (Sender<Notice>, Receiver<Notice>))
    requires
        0 < cap <= 16,
    ensures
        capacity_of(res.0) == cap,
{
    crossbeam_channel::bounded(cap)
}

/// Calls `Sender::send_timeout`, which waits for room in the channel for at
/// most `millis` milliseconds. Whether there is room depends on the
/// receiving thread, so nothing is claimed of the result.
#[verifier::external_body]
fn send_timeout(tx: &Sender<Notice>, notice: Notice, millis: u32) -> (res: Posting) {
    match tx.send_timeout(notice, Duration::from_millis(u64::from(millis))) {
        Ok(()) => Posting::Sent,
        Err(SendTimeoutError::Timeout(_)) => Posting::TimedOut,
        Err(SendTimeoutError::Disconnected(_)) => Posting::Disconnected,
    }
}

/// Calls `Receiver::recv_timeout`, which waits for a message for at most
/// `millis` milliseconds. What arrives depends on the sending thread, so
/// nothing is claimed of the result.
#[verifier::external_body]
pub(crate) fn recv_timeout(rx: &Receiver<Notice>, millis: u32) -> (res: Delivery) {
    match rx.recv_timeout(Duration::from_millis(u64::from(millis))) {
        Ok(notice) => Delivery::Published(notice),
        Err(RecvTimeoutError::Timeout) => Delivery::TimedOut,
        Err(RecvTimeoutError::Disconnected) => Delivery::Disconnected,
    }
}

/// What the watcher did with one bus message.
#[derive(Clone, Copy, Debug, PartialEq, Eq, Structural)]
pub struct Handled {
    /// Whether watching ends with this message.
    pub terminal: bool,
    /// What became of the notice, if the message called for one.
    pub posting: Option<Posting>,
}

/// What the watcher does with one bus message: it hands the notice that the
/// message calls for to the channel, waiting for room for at most `millis`
/// milliseconds, and says whether watching ends with this message. It ends
/// with the first message that ends the run, whether or not the notice
/// could be delivered; a message that calls for no notice reaches the
/// channel with nothing.
pub fn publish(message: &BusMessage, tx: &Sender<Notice>, millis: u32) -> (res: Handled)
    ensures
        res.terminal == ends_run(message@),
        res.posting is Some <==> notice_for(message@) is Some,
{
    let verdict = judge(message);
    let posting = match verdict.notice {
        Some(notice) => Some(send_timeout(tx, notice, millis)),
        None => None,
    };
    Handled { terminal: verdict.terminal, posting }
}

} // verus!
