//! The client façade: the operations concurrent callers invoke.  Each one
//! builds a command, sends it to the worker over the command channel, and
//! waits on a fresh single-use reply channel — with a deadline where the
//! caller must never be stalled by a wedged worker.  What comes back is
//! decided by the worker running concurrently, so these functions state what
//! holds of every outcome and leave the transition guarantees to the worker's
//! own contracts.

use vstd::prelude::*;

use crate::channel::{channel_pair, channel_recv, channel_recv_timeout, channel_send};
use crate::worker::ThreadRequest;
use crate::ReloadRequest;
use crate::RuntimeInfo;

verus! {

/// The acknowledgment a load caller receives.
#[derive(Clone, Copy, Debug, PartialEq, Eq, Structural)]
pub enum LoadResponse {
    /// The model was built and installed.
    Success,
    /// The load failed and the previous state is untouched.
    Failure,
}

/// The acknowledgment an unload caller receives; an unload never fails.
#[derive(Clone, Copy, Debug, PartialEq, Eq, Structural)]
pub enum UnloadResponse {
    /// The worker has released the model and drained back to empty.
    Success,
}

/// The load acknowledgment that a worker reply stands for: `Success` exactly
/// when the reply reports that the model was built.
pub fn load_response_of(replied: bool) -> (r: LoadResponse)
    ensures
        r == (if replied {
            LoadResponse::Success
        } else {
            LoadResponse::Failure
        }),
{
    if replied {
        LoadResponse::Success
    } else {
        LoadResponse::Failure
    }
}

/// Sends an `Info` command and waits for the snapshot at most `timeout_ms`
/// milliseconds.  Returns `None` when no model is loaded, when the worker is
/// gone, or when the deadline passes first — callers that only display the
/// current state treat all three alike.  The abandoned reply channel is
/// simply dropped; the worker's late reply into it is discarded, never an
/// error.
pub fn request_info(
    sender: &flume::Sender<ThreadRequest>,
    timeout_ms: u64,
) -> Option<RuntimeInfo> {
    let (reply_sender, reply_receiver) = channel_pair::<RuntimeInfo>();
    let _accepted = channel_send(sender, ThreadRequest::Info { sender: reply_sender });
    channel_recv_timeout(&reply_receiver, timeout_ms)
}

/// Sends an `Info` command and waits for the worker's answer to it, without
/// a deadline.  Returns `None` exactly when the worker has no snapshot to
/// give — it processed the query while empty and dropped the reply channel —
/// or when the worker is gone; used to poll for the completion of an unload.
pub fn try_request_info(sender: &flume::Sender<ThreadRequest>) -> Option<RuntimeInfo> {
    let (reply_sender, reply_receiver) = channel_pair::<RuntimeInfo>();
    let _accepted = channel_send(sender, ThreadRequest::Info { sender: reply_sender });
    channel_recv(&reply_receiver)
}

/// Sends a `Reload` command and waits for the boolean result with no
/// deadline: a reload may legitimately take long, and the caller accepts the
/// wait.  Returns `None` only when the worker is gone — the fatal
/// "unavailable" condition, distinct from an ordinary load failure.
pub fn request_load(
    sender: &flume::Sender<ThreadRequest>,
    request: ReloadRequest,
) -> Option<LoadResponse> {
    let (reply_sender, reply_receiver) = channel_pair::<bool>();
    let _accepted = channel_send(
        sender,
        ThreadRequest::Reload { request, sender: Some(reply_sender) },
    );
    match channel_recv(&reply_receiver) {
        Some(replied) => Some(load_response_of(replied)),
        None => None,
    }
}

/// Sends a `Reload` command without a reply channel: fire-and-forget.  The
/// outcome is only observable through later info queries or subscriptions.
/// Returns whether the command channel accepted the command.
pub fn request_load_unconfirmed(
    sender: &flume::Sender<ThreadRequest>,
    request: ReloadRequest,
) -> bool {
    channel_send(sender, ThreadRequest::Reload { request, sender: None })
}

/// One round of the periodic info feed behind the live state stream: what
/// the poller does with what the bounded-wait query yielded.  A snapshot is
/// forwarded to the feed's subscriber; a miss — no model, a timeout, the
/// worker gone — is skipped and the polling goes on.  The feed stops only
/// when the subscriber itself is gone: forwarding into its dropped channel
/// fails, and the result says to stop.
pub fn forward_polled(
    subscriber: &flume::Sender<RuntimeInfo>,
    polled: Option<RuntimeInfo>,
) -> (keep_going: bool)
    ensures
        polled is None ==> keep_going,
{
    match polled {
        Some(info) => channel_send(subscriber, info),
        None => true,
    }
}

/// One tick of the info stream: a bounded-wait query, and its answer handed
/// to `forward_polled`.  The caller repeats ticks, sleeping in between,
/// until one says to stop.
pub fn info_stream_tick(
    sender: &flume::Sender<ThreadRequest>,
    subscriber: &flume::Sender<RuntimeInfo>,
    timeout_ms: u64,
) -> (keep_going: bool) {
    let polled = request_info(sender, timeout_ms);
    forward_polled(subscriber, polled)
}

/// How many info polls an unload is willing to spend waiting for the drain;
/// each poll blocks until the worker answers it, so the first poll already
/// suffices unless concurrent callers keep reloading in between.
pub const UNLOAD_POLL_LIMIT: u64 = 64;

/// Sends an `Unload` command, then polls info queries until one fails: the
/// worker processes commands in arrival order, so the first query answered
/// after the unload finds the worker empty and the poll stops.  The poll is
/// bounded, so the caller never retries forever; the acknowledgment is
/// unconditional, since an unload never fails.
pub fn request_unload(sender: &flume::Sender<ThreadRequest>) -> (r: UnloadResponse)
    ensures
        r == UnloadResponse::Success,
{
    let _accepted = channel_send(sender, ThreadRequest::Unload);
    let mut polls: u64 = 0;
    while polls < UNLOAD_POLL_LIMIT
        invariant
            polls <= UNLOAD_POLL_LIMIT,
        decreases UNLOAD_POLL_LIMIT - polls,
    {
        let polled = try_request_info(sender);
        if polled.is_none() {
            break ;
        }
        polls = polls + 1;
    }
    UnloadResponse::Success
}

} // verus!
