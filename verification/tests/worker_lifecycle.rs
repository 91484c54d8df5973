//! The worker's lifecycle over whole command sequences, driven the way the
//! worker loop drives it: commands carrying real reply channels, with the
//! model construction outcome decided by a stand-in loader.

use model_control::{ModelMeta, ReloadRequest, RuntimeInfo, ThreadRequest, Worker};

fn meta() -> ModelMeta {
    ModelMeta { version: 5, num_layer: 12, num_emb: 768, num_vocab: 50277 }
}

fn request(path: &str) -> ReloadRequest {
    ReloadRequest { path: path.to_string(), quant: 0 }
}

/// Stand-in for the model construction: absolute paths do not exist here.
fn stub_load(r: &ReloadRequest) -> Option<ModelMeta> {
    if r.path.starts_with('/') {
        None
    } else {
        Some(meta())
    }
}

#[test]
fn fresh_worker_is_empty() {
    let w = Worker::new();
    assert!(w.current_info().is_none());
}

#[test]
fn scenario_load_query_fail_query_unload_query() {
    let mut w = Worker::new();

    let (tx, rx) = flume::unbounded();
    let outcome = stub_load(&request("m1"));
    w.process_command(ThreadRequest::Reload { request: request("m1"), sender: Some(tx) }, outcome);
    assert_eq!(rx.try_recv().unwrap(), true);

    let info = w.current_info().expect("a snapshot after a successful load");
    assert_eq!(info.reload.path, "m1");

    let (tx2, rx2) = flume::unbounded();
    let outcome2 = stub_load(&request("/nonexistent"));
    w.process_command(
        ThreadRequest::Reload { request: request("/nonexistent"), sender: Some(tx2) },
        outcome2,
    );
    assert_eq!(rx2.try_recv().unwrap(), false);

    let info_after = w.current_info().expect("the old snapshot survives a failed load");
    assert_eq!(info_after.reload.path, "m1");
    assert_eq!(info_after, info);

    w.process_command(ThreadRequest::Unload, None);
    assert!(w.current_info().is_none());
}

#[test]
fn failed_reload_leaves_snapshot_identical() {
    let mut w = Worker::new();
    let prior = w.begin_reload();
    assert!(prior.is_none());
    let ok = w.finish_reload(prior, request("m1"), Some(meta()), None);
    assert!(ok);
    let before = w.current_info().unwrap();

    let prior = w.begin_reload();
    assert_eq!(prior.as_ref().unwrap(), &before);
    let ok = w.finish_reload(prior, request("broken"), None, None);
    assert!(!ok);

    let after = w.current_info().unwrap();
    assert_eq!(after, before);
}

#[test]
fn unload_is_idempotent() {
    let mut w = Worker::new();
    w.process_command(
        ThreadRequest::Reload { request: request("m1"), sender: None },
        stub_load(&request("m1")),
    );
    assert!(w.current_info().is_some());

    w.handle_unload();
    assert!(w.current_info().is_none());
    w.handle_unload();
    assert!(w.current_info().is_none());
}

#[test]
fn subscribe_before_reload_sees_exactly_one_push() {
    let mut w = Worker::new();
    let (stream_tx, stream_rx) = flume::unbounded::<Option<RuntimeInfo>>();

    w.process_command(ThreadRequest::Subscribe { sender: stream_tx }, None);
    assert!(stream_rx.try_recv().is_err(), "no initial push while empty");

    w.process_command(
        ThreadRequest::Reload { request: request("m1"), sender: None },
        stub_load(&request("m1")),
    );
    let pushed = stream_rx.try_recv().expect("one push after the reload");
    assert_eq!(pushed.unwrap().reload.path, "m1");
    assert!(stream_rx.try_recv().is_err(), "and no duplicate");
}

#[test]
fn subscribe_while_ready_gets_current_snapshot_at_once() {
    let mut w = Worker::new();
    w.process_command(
        ThreadRequest::Reload { request: request("m1"), sender: None },
        stub_load(&request("m1")),
    );

    let (stream_tx, stream_rx) = flume::unbounded::<Option<RuntimeInfo>>();
    w.handle_subscribe(stream_tx);
    let pushed = stream_rx.try_recv().expect("the level push");
    assert_eq!(pushed.unwrap().reload.path, "m1");
    assert!(stream_rx.try_recv().is_err());
}

#[test]
fn failed_reload_pushes_nothing() {
    let mut w = Worker::new();
    let (stream_tx, stream_rx) = flume::unbounded::<Option<RuntimeInfo>>();
    w.handle_subscribe(stream_tx);

    w.process_command(
        ThreadRequest::Reload { request: request("/nonexistent"), sender: None },
        stub_load(&request("/nonexistent")),
    );
    assert!(stream_rx.try_recv().is_err(), "a failed reload notifies nobody");
}

#[test]
fn unload_pushes_the_no_model_marker() {
    let mut w = Worker::new();
    w.process_command(
        ThreadRequest::Reload { request: request("m1"), sender: None },
        stub_load(&request("m1")),
    );
    let (stream_tx, stream_rx) = flume::unbounded::<Option<RuntimeInfo>>();
    w.handle_subscribe(stream_tx);
    let _level = stream_rx.try_recv().unwrap();

    w.process_command(ThreadRequest::Unload, None);
    let pushed = stream_rx.try_recv().expect("the unload notice");
    assert!(pushed.is_none());
}

#[test]
fn info_command_replies_with_snapshot_when_ready() {
    let mut w = Worker::new();
    w.process_command(
        ThreadRequest::Reload { request: request("m1"), sender: None },
        stub_load(&request("m1")),
    );

    let (reply_tx, reply_rx) = flume::unbounded::<RuntimeInfo>();
    let replied = w.handle_info(reply_tx);
    assert_eq!(replied.as_ref().unwrap().reload.path, "m1");
    assert_eq!(reply_rx.try_recv().unwrap().reload.path, "m1");
}

#[test]
fn info_command_drops_the_reply_channel_when_empty() {
    let w = Worker::new();
    let (reply_tx, reply_rx) = flume::unbounded::<RuntimeInfo>();
    let replied = w.handle_info(reply_tx);
    assert!(replied.is_none());
    assert!(reply_rx.recv().is_err(), "the reply channel ends disconnected, unanswered");
}

#[test]
fn successful_reload_replaces_the_snapshot() {
    let mut w = Worker::new();
    w.process_command(
        ThreadRequest::Reload { request: request("m1"), sender: None },
        Some(ModelMeta { version: 5, num_layer: 1, num_emb: 2, num_vocab: 3 }),
    );
    w.process_command(
        ThreadRequest::Reload { request: request("m2"), sender: None },
        Some(ModelMeta { version: 6, num_layer: 4, num_emb: 5, num_vocab: 6 }),
    );
    let info = w.current_info().unwrap();
    assert_eq!(info.reload.path, "m2");
    assert_eq!(info.model.version, 6);
}

#[test]
fn every_subscriber_is_notified() {
    let mut w = Worker::new();
    let (tx_a, rx_a) = flume::unbounded::<Option<RuntimeInfo>>();
    let (tx_b, rx_b) = flume::unbounded::<Option<RuntimeInfo>>();
    w.handle_subscribe(tx_a);
    w.handle_subscribe(tx_b);

    w.process_command(
        ThreadRequest::Reload { request: request("m1"), sender: None },
        stub_load(&request("m1")),
    );
    assert_eq!(rx_a.try_recv().unwrap().unwrap().reload.path, "m1");
    assert_eq!(rx_b.try_recv().unwrap().unwrap().reload.path, "m1");

    w.process_command(ThreadRequest::Unload, None);
    assert!(rx_a.try_recv().unwrap().is_none());
    assert!(rx_b.try_recv().unwrap().is_none());
}
