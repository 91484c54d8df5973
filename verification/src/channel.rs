//! Trusted declarations of the flume channel types and thin wrappers around
//! the channel operations the control plane uses.  A value travelling through
//! a channel is written and read by concurrently running tasks, so nothing is
//! promised here about which value an operation yields: the verified logic
//! states what holds of every outcome instead.

use vstd::prelude::*;

verus! {

/// flume's transmitting channel end, declared so that it can stand in fields
/// and signatures; it is opaque to the verifier.
#[verifier::external_type_specification]
#[verifier::external_body]
#[verifier::reject_recursive_types(T)]
pub struct ExSender<T>(flume::Sender<T>);

/// flume's receiving channel end, declared so that it can stand in fields
/// and signatures; it is opaque to the verifier.
#[verifier::external_type_specification]
#[verifier::external_body]
#[verifier::reject_recursive_types(T)]
pub struct ExReceiver<T>(flume::Receiver<T>);

/// Relies on flume::unbounded: creates a connected sender/receiver pair of an
/// unbounded channel, on which sending never blocks.
#[verifier::external_body]
pub(crate) fn channel_pair<T>() -> (flume::Sender<T>, flume::Receiver<T>) {
    flume::unbounded()
}

/// Relies on flume::Sender::send: on an unbounded channel it never blocks and
/// fails exactly when every receiver has been dropped; the message is then
/// discarded.  The result reports whether the channel accepted the message.
#[verifier::external_body]
pub(crate) fn channel_send<T>(sender: &flume::Sender<T>, value: T) -> bool {
    sender.send(value).is_ok()
}

/// Relies on flume::Receiver::recv: blocks until a value arrives, and fails
/// exactly when every sender has been dropped and the channel is drained.
#[verifier::external_body]
pub(crate) fn channel_recv<T>(receiver: &flume::Receiver<T>) -> Option<T> {
    match receiver.recv() {
        Ok(value) => Some(value),
        Err(_) => None,
    }
}

/// Relies on flume::Receiver::recv_timeout: waits for a value at most for the
/// given number of milliseconds; `None` stands for both a timeout and a
/// channel whose senders are gone.
#[verifier::external_body]
pub(crate) fn channel_recv_timeout<T>(receiver: &flume::Receiver<T>, timeout_ms: u64) -> Option<T> {
    match receiver.recv_timeout(core::time::Duration::from_millis(timeout_ms)) {
        Ok(value) => Some(value),
        Err(_) => None,
    }
}

} // verus!
