//! Trusted view of the two standard channels the bridge threads share.
//!
//! The virtual-machine thread and the render thread communicate only through
//! two unbounded channels: controller snapshots flow towards the machine,
//! finished frames flow towards the display.  What a poll or a send yields
//! depends on the peer thread, so none of these items promises an outcome;
//! the verified callers state what holds whatever came back.

use vstd::prelude::*;

use crate::controller_state::ControllerState;
use crate::render::FramePoll;

verus! {

/// Sending half of a standard unbounded channel.
#[verifier::external_type_specification]
#[verifier::external_body]
#[verifier::reject_recursive_types(T)]
pub struct ExSender<T>(std::sync::mpsc::Sender<T>);

/// Receiving half of a standard unbounded channel.
#[verifier::external_type_specification]
#[verifier::external_body]
#[verifier::reject_recursive_types(T)]
pub struct ExReceiver<T>(std::sync::mpsc::Receiver<T>);

/// Relies on std's `Receiver::try_recv`: a non-blocking poll that yields the
/// oldest queued snapshot, or nothing when the queue is empty or the sender
/// is gone — the bridge treats both alike and keeps the previous mirror.
#[verifier::external_body]
pub(crate) fn try_recv_snapshot(rx: &std::sync::mpsc::Receiver<ControllerState>) -> Option<
    ControllerState,
> {
    rx.try_recv().ok()
}

/// Relies on std's `Receiver::try_recv`: a non-blocking poll that tells a
/// pending frame, an empty queue, and a disconnected sender apart.
#[verifier::external_body]
pub(crate) fn try_recv_frame(rx: &std::sync::mpsc::Receiver<Vec<u8>>) -> FramePoll {
    match rx.try_recv() {
        Ok(frame) => FramePoll::Received(frame),
        Err(std::sync::mpsc::TryRecvError::Empty) => FramePoll::Empty,
        Err(std::sync::mpsc::TryRecvError::Disconnected) => FramePoll::Disconnected,
    }
}

/// Relies on std's `Sender::send`: queues the frame for the render thread;
/// `false` means the receiving half has been dropped.
#[verifier::external_body]
pub(crate) fn send_frame(tx: &std::sync::mpsc::Sender<Vec<u8>>, frame: Vec<u8>) -> bool {
    tx.send(frame).is_ok()
}

/// Relies on std's `Sender::send`: queues the snapshot for the
/// virtual-machine thread; `false` means the receiving half has been dropped.
#[verifier::external_body]
pub(crate) fn send_snapshot(
    tx: &std::sync::mpsc::Sender<ControllerState>,
    snapshot: &ControllerState,
) -> bool {
    tx.send(snapshot.clone()).is_ok()
}

} // verus!
