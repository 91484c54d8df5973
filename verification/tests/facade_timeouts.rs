//! The façade's bounded-wait behaviour against a worker that is stalled or
//! gone: callers always unblock, and a closed command channel is handled as
//! "unavailable" rather than hanging or panicking.

use model_control::facade::{forward_polled, load_response_of, LoadResponse, UnloadResponse};
use model_control::{
    info_stream_tick, request_info, request_load, request_load_unconfirmed, request_unload,
    ModelMeta, ReloadRequest, RuntimeInfo, ThreadRequest,
};

fn request(path: &str) -> ReloadRequest {
    ReloadRequest { path: path.to_string(), quant: 0 }
}

#[test]
fn stalled_worker_info_query_times_out_as_none() {
    // The command channel exists but nothing drains it: a stalled worker.
    let (tx, rx) = flume::unbounded::<ThreadRequest>();
    let answer = request_info(&tx, 100);
    assert!(answer.is_none(), "the deadline, not the worker, unblocks the caller");
    assert_eq!(rx.len(), 1, "the abandoned query was still submitted");
}

#[test]
fn gone_worker_info_query_returns_none() {
    let (tx, rx) = flume::unbounded::<ThreadRequest>();
    drop(rx);
    assert!(request_info(&tx, 5_000).is_none());
}

#[test]
fn gone_worker_load_reports_unavailable() {
    let (tx, rx) = flume::unbounded::<ThreadRequest>();
    drop(rx);
    assert!(request_load(&tx, request("m1")).is_none());
}

#[test]
fn gone_worker_unload_still_acknowledges_and_terminates() {
    let (tx, rx) = flume::unbounded::<ThreadRequest>();
    drop(rx);
    assert_eq!(request_unload(&tx), UnloadResponse::Success);
}

#[test]
fn fire_and_forget_load_reports_channel_acceptance() {
    let (tx, rx) = flume::unbounded::<ThreadRequest>();
    assert!(request_load_unconfirmed(&tx, request("m1")));
    assert_eq!(rx.len(), 1);
    drop(rx);
    assert!(!request_load_unconfirmed(&tx, request("m1")));
}

#[test]
fn load_reply_maps_to_the_two_tokens() {
    assert_eq!(load_response_of(true), LoadResponse::Success);
    assert_eq!(load_response_of(false), LoadResponse::Failure);
}

#[test]
fn stream_tick_keeps_polling_when_nothing_was_yielded() {
    // A stalled worker yields nothing within the deadline: the feed goes on.
    let (tx, _rx) = flume::unbounded::<ThreadRequest>();
    let (feed_tx, feed_rx) = flume::unbounded::<RuntimeInfo>();
    assert!(info_stream_tick(&tx, &feed_tx, 50));
    assert!(feed_rx.try_recv().is_err(), "a miss forwards nothing");
}

#[test]
fn stream_forwarding_stops_when_the_feed_receiver_is_gone() {
    let info = RuntimeInfo {
        reload: request("m1"),
        model: ModelMeta { version: 5, num_layer: 1, num_emb: 2, num_vocab: 3 },
    };
    let (feed_tx, feed_rx) = flume::unbounded::<RuntimeInfo>();
    assert!(forward_polled(&feed_tx, Some(info.clone())), "a live subscriber keeps the feed going");
    assert_eq!(feed_rx.try_recv().unwrap(), info);
    assert!(forward_polled(&feed_tx, None), "a miss never ends the feed");
    drop(feed_rx);
    assert!(!forward_polled(&feed_tx, Some(info)), "a gone subscriber ends it");
}
