//! The bounded conduit between the dispatcher and one open stream, and the
//! timing of that stream.

use vstd::prelude::*;
use tokio::sync::mpsc::{Receiver, Sender};

verus! {

/// Messages that may wait in a conduit before the dispatcher has to wait.
pub const CONDUIT_CAPACITY: usize = 100;

/// Least number of seconds between two events released to a client.
pub const THROTTLE_SECS: u64 = 10;

/// Seconds between two heartbeats on an idle stream.
pub const KEEP_ALIVE_SECS: u64 = 10;

/// A capacity below the channel's own limit on machines of 32 and of 64 bits.
pub const MAX_CONDUIT_CAPACITY: usize = 0x1FFF_FFFF;

/// The producing end of tokio's bounded channel.
#[verifier::external_type_specification]
#[verifier::external_body]
#[verifier::reject_recursive_types(T)]
pub struct ExSender<T>(Sender<T>);

/// The consuming end of tokio's bounded channel.
#[verifier::external_type_specification]
#[verifier::external_body]
#[verifier::reject_recursive_types(T)]
pub struct ExReceiver<T>(Receiver<T>);

/// The number of messages that the conduit behind `sender` was opened for.
pub uninterp spec fn sender_bound(sender: Sender<String>) -> nat;

/// The number of messages that the conduit behind `receiver` was opened for.
pub uninterp spec fn receiver_bound(receiver: Receiver<String>) -> nat;

/// Calls `tokio::sync::mpsc::channel`, which makes a bounded channel and
/// panics on a capacity of zero or above its semaphore's limit. Both ends
/// keep the capacity they were made with; nothing is claimed of what the
/// channel holds later.
#[verifier::external_body]
fn channel(capacity: usize) -> (ends: (Sender<String>, Receiver<String>))
    requires
        0 < capacity <= MAX_CONDUIT_CAPACITY,
    ensures
        sender_bound(ends.0) == capacity,
        receiver_bound(ends.1) == capacity,
{
    tokio::sync::mpsc::channel(capacity)
}

/// Opens a conduit of [`CONDUIT_CAPACITY`] messages.
pub fn open_conduit() -> (ends: (Sender<String>, Receiver<String>))
    ensures
        sender_bound(ends.0) == CONDUIT_CAPACITY,
        receiver_bound(ends.1) == CONDUIT_CAPACITY,
{
    channel(CONDUIT_CAPACITY)
}

/// The text of a heartbeat.
pub fn keep_alive_text() -> (r: String)
    ensures
        r@ == "keep-alive-text"@,
{
    "keep-alive-text".to_owned()
}

} // verus!
