//! The lifecycle state machine of the worker: its states, the commands it
//! reacts to, and the exact transition relation, together with the laws that
//! hold of every command sequence.

use vstd::prelude::*;

verus! {

/// Caller-supplied parameters identifying what to load: a filesystem path
/// plus a load option.  Treated as opaque configuration by the lifecycle
/// logic; it is validated by the worker at load time, not before.
#[derive(Debug, PartialEq)]
pub struct ReloadRequest {
    /// Path of the model file to load.
    pub path: String,
    /// Quantization layer count requested for the load.
    pub quant: usize,
}

impl Clone for ReloadRequest {
    fn clone(&self) -> (r: Self)
        ensures
            r == *self,
    {
        ReloadRequest { path: self.path.clone(), quant: self.quant }
    }
}

/// The metadata the control plane carries for a loaded model.  The lifecycle
/// logic treats it as an opaque payload: it is produced by whatever loads the
/// model and only handed out in snapshots.
#[derive(Clone, Copy, Debug, PartialEq, Eq, Structural)]
pub struct ModelMeta {
    /// Model format version.
    pub version: u64,
    /// Number of layers.
    pub num_layer: usize,
    /// Embedding width.
    pub num_emb: usize,
    /// Vocabulary size.
    pub num_vocab: usize,
}

/// An immutable snapshot describing the currently loaded model.  A new
/// snapshot is built after every successful reload and handed out by value;
/// it is never mutated in place.  Absence of a model is represented by the
/// absence of a snapshot, not by a snapshot with empty fields.
#[derive(Debug, PartialEq)]
pub struct RuntimeInfo {
    /// The request that the loaded model was built from.
    pub reload: ReloadRequest,
    /// Metadata of the loaded model.
    pub model: ModelMeta,
}

impl Clone for RuntimeInfo {
    fn clone(&self) -> (r: Self)
        ensures
            r == *self,
    {
        RuntimeInfo { reload: self.reload.clone(), model: self.model }
    }
}

/// The worker's lifecycle state.  `Loading` and `Unloading` are transient:
/// they hold only while the worker is inside a load or teardown operation,
/// during which it processes no other command; between commands the state is
/// always quiescent (`Empty` or `Ready`).
#[derive(Debug)]
pub enum WorkerState {
    /// No model is loaded.
    Empty,
    /// A load operation is in progress.
    Loading,
    /// A model is loaded; the snapshot describes it.
    Ready(RuntimeInfo),
    /// A teardown operation is in progress.
    Unloading,
}

/// One processed command together with the outcome of any outside work it
/// required: for a reload, whether the model construction succeeded and with
/// what metadata.  This is the alphabet of the transition relation.
pub enum Event {
    /// A reload attempt; `loaded` is `Some` exactly when the model was built.
    Reload { request: ReloadRequest, loaded: Option<ModelMeta> },
    /// A request to release the current model.
    Unload,
    /// A read-only query of the current snapshot.
    Info,
    /// Registration of a new subscriber.
    Subscribe,
}

/// A state is quiescent when no load or teardown is in progress: the only
/// states in which the worker picks up a command.
pub open spec fn quiescent_state(s: WorkerState) -> bool {
    match s {
        WorkerState::Empty => true,
        WorkerState::Ready(_) => true,
        _ => false,
    }
}

/// The snapshot available in a state, if any.
pub open spec fn snapshot_of(s: WorkerState) -> Option<RuntimeInfo> {
    match s {
        WorkerState::Ready(info) => Some(info),
        _ => None,
    }
}

/// The transition relation of the lifecycle state machine:
/// - a successful reload installs a fresh snapshot built from the request;
/// - a failed reload leaves the state exactly as it was;
/// - an unload always ends in `Empty`;
/// - info queries and subscriptions never change the state.
pub open spec fn next_state(s: WorkerState, e: Event) -> WorkerState {
    match e {
        Event::Reload { request, loaded } => match loaded {
            Some(meta) => WorkerState::Ready(RuntimeInfo { reload: request, model: meta }),
            None => s,
        },
        Event::Unload => WorkerState::Empty,
        Event::Info => s,
        Event::Subscribe => s,
    }
}

/// What is pushed to every already-registered subscriber when an event is
/// processed in state `s`: the new snapshot after a successful reload, the
/// explicit "no model" marker after an unload, and nothing otherwise.
pub open spec fn event_pushes(s: WorkerState, e: Event) -> Seq<Option<RuntimeInfo>> {
    match e {
        Event::Reload { request, loaded } => match loaded {
            Some(meta) => seq![Some(RuntimeInfo { reload: request, model: meta })],
            None => Seq::empty(),
        },
        Event::Unload => seq![None],
        Event::Info => Seq::empty(),
        Event::Subscribe => Seq::empty(),
    }
}

/// What a subscriber is sent immediately upon subscribing in state `s`: the
/// current snapshot if one exists, nothing otherwise (the level part of the
/// level-then-edge delivery policy).
pub open spec fn initial_push(s: WorkerState) -> Seq<Option<RuntimeInfo>> {
    match s {
        WorkerState::Ready(info) => seq![Some(info)],
        _ => Seq::empty(),
    }
}

/// The reply a reload caller receives: success exactly when the model was
/// built.
pub open spec fn reload_reply(loaded: Option<ModelMeta>) -> bool {
    loaded is Some
}

/// The state after processing a whole sequence of events, first to last.
pub open spec fn run(s: WorkerState, es: Seq<Event>) -> WorkerState
    decreases es.len(),
{
    if es.len() == 0 {
        s
    } else {
        run(next_state(s, es[0]), es.drop_first())
    }
}

/// Everything pushed, over the events `es`, to a subscriber that is already
/// registered when the worker is in state `s`.
pub open spec fn received(s: WorkerState, es: Seq<Event>) -> Seq<Option<RuntimeInfo>>
    decreases es.len(),
{
    if es.len() == 0 {
        Seq::empty()
    } else {
        event_pushes(s, es[0]) + received(next_state(s, es[0]), es.drop_first())
    }
}

/// Law: each single transition follows the state machine table.  A
/// successful reload ends `Ready` with the fresh snapshot wherever it
/// starts; a failed reload changes nothing; an unload always ends `Empty`;
/// info queries and subscriptions leave any state as it was.
pub proof fn lemma_transition_table(s: WorkerState, request: ReloadRequest, meta: ModelMeta)
    ensures
        next_state(WorkerState::Empty, Event::Reload { request, loaded: Some(meta) })
            == (WorkerState::Ready(RuntimeInfo { reload: request, model: meta })),
        next_state(WorkerState::Empty, Event::Reload { request, loaded: None })
            == WorkerState::Empty,
        forall|prev: RuntimeInfo|
            next_state(WorkerState::Ready(prev), Event::Reload { request, loaded: Some(meta) })
                == (WorkerState::Ready(RuntimeInfo { reload: request, model: meta })),
        forall|prev: RuntimeInfo|
            next_state(WorkerState::Ready(prev), Event::Reload { request, loaded: None })
                == WorkerState::Ready(prev),
        next_state(s, Event::Unload) == WorkerState::Empty,
        next_state(s, Event::Info) == s,
        next_state(s, Event::Subscribe) == s,
{
}

/// Law: processing a command never leaves the worker stuck in a transient
/// state.  From any quiescent state, every sequence of events ends in a
/// quiescent state, so the transition table of the state machine is closed
/// over `Empty` and `Ready`.
pub proof fn lemma_run_quiescent(s: WorkerState, es: Seq<Event>)
    requires
        quiescent_state(s),
    ensures
        quiescent_state(run(s, es)),
    decreases es.len(),
{
    if es.len() > 0 {
        lemma_run_quiescent(next_state(s, es[0]), es.drop_first());
    }
}

/// Law: a failed reload is invisible.  The state after it — and with it the
/// snapshot, byte for byte — is exactly the state before the attempt, and no
/// subscriber is notified.
pub proof fn lemma_failed_reload_is_invisible(s: WorkerState, request: ReloadRequest)
    ensures
        next_state(s, Event::Reload { request, loaded: None }) == s,
        snapshot_of(next_state(s, Event::Reload { request, loaded: None })) == snapshot_of(s),
        event_pushes(s, Event::Reload { request, loaded: None }) == Seq::<Option<
            RuntimeInfo,
        >>::empty(),
{
}

/// Law: unload is idempotent.  One unload ends in `Empty`, and a second
/// unload with no reload in between leaves `Empty` unchanged; both are
/// acknowledged, since an unload never fails.
pub proof fn lemma_unload_idempotent(s: WorkerState)
    ensures
        next_state(s, Event::Unload) == WorkerState::Empty,
        next_state(next_state(s, Event::Unload), Event::Unload) == WorkerState::Empty,
{
}

/// Law: under the level-then-edge policy, a subscriber that registers before
/// any model is loaded receives nothing at registration, and one successful
/// reload then delivers exactly one push, carrying exactly the new snapshot.
pub proof fn lemma_subscribe_then_reload(request: ReloadRequest, meta: ModelMeta)
    ensures
        initial_push(WorkerState::Empty) == Seq::<Option<RuntimeInfo>>::empty(),
        received(WorkerState::Empty, seq![Event::Reload { request, loaded: Some(meta) }])
            =~= seq![Some(RuntimeInfo { reload: request, model: meta })],
{
    let e = Event::Reload { request, loaded: Some(meta) };
    let es = seq![e];
    assert(es.drop_first() =~= Seq::<Event>::empty());
    assert(received(next_state(WorkerState::Empty, e), es.drop_first()) =~= Seq::<Option<
        RuntimeInfo,
    >>::empty());
}

} // verus!
