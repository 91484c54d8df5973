//! The worker: the single task that exclusively owns the model slot, drains
//! the command channel sequentially, and produces replies and subscription
//! pushes.  Every method is tied to the transition relation of
//! `crate::lifecycle`, and a ghost record of everything pushed to each
//! subscriber makes the delivery policy part of the contracts.

use vstd::prelude::*;

use crate::channel::channel_send;
use crate::lifecycle::{
    event_pushes, initial_push, next_state, quiescent_state, reload_reply, snapshot_of, Event,
    ModelMeta, ReloadRequest, RuntimeInfo, WorkerState,
};

verus! {

/// A typed command from a caller to the worker.  A variant that expects a
/// reply carries a single-use reply channel; a reload caller that does not
/// need confirmation omits it.
pub enum ThreadRequest {
    /// Attempt to load the model described by `request`; reply `true` on
    /// success and `false` on failure if a reply channel was supplied.
    Reload { request: ReloadRequest, sender: Option<flume::Sender<bool>> },
    /// Release the current model, if any.
    Unload,
    /// Reply with the current snapshot; the reply channel is dropped
    /// unanswered when no model is loaded.
    Info { sender: flume::Sender<RuntimeInfo> },
    /// Register the stream to receive snapshot pushes from now on.
    Subscribe { sender: flume::Sender<Option<RuntimeInfo>> },
}

/// The event a command resolves to once the outside work it needs is done:
/// for a reload, `loaded` is the outcome of the model construction.
pub open spec fn event_of(cmd: ThreadRequest, loaded: Option<ModelMeta>) -> Event {
    match cmd {
        ThreadRequest::Reload { request, sender } => Event::Reload { request, loaded },
        ThreadRequest::Unload => Event::Unload,
        ThreadRequest::Info { sender } => Event::Info,
        ThreadRequest::Subscribe { sender } => Event::Subscribe,
    }
}

/// The exclusive owner of the model slot.  Only worker methods mutate the
/// state, and they are called with one command at a time, so transitions are
/// serialized by construction.
pub struct Worker {
    /// The lifecycle state; between commands it is always quiescent.
    pub state: WorkerState,
    /// The registered subscription streams, in registration order.
    pub subscribers: Vec<flume::Sender<Option<RuntimeInfo>>>,
    /// Ghost record: for each subscriber, everything pushed to it so far, in
    /// order.  Send attempts are recorded whether or not the subscriber is
    /// still listening; a dropped stream simply discards them.
    pub pushed: Ghost<Seq<Seq<Option<RuntimeInfo>>>>,
}

impl Worker {
    /// The ghost push record covers exactly the registered subscribers.
    pub open spec fn wf(&self) -> bool {
        self.pushed@.len() == self.subscribers@.len()
    }

    /// The current snapshot, if a model is loaded.
    pub open spec fn snapshot(&self) -> Option<RuntimeInfo> {
        snapshot_of(self.state)
    }

    /// A fresh worker: no model, no subscribers.
    pub fn new() -> (w: Worker)
        ensures
            w.wf(),
            w.state is Empty,
            w.subscribers@.len() == 0,
    {
        Worker {
            state: WorkerState::Empty,
            subscribers: Vec::new(),
            pushed: Ghost(Seq::empty()),
        }
    }

    /// Whether the worker is between commands and may pick up the next one.
    pub fn is_quiescent(&self) -> (b: bool)
        ensures
            b == quiescent_state(self.state),
    {
        match &self.state {
            WorkerState::Empty => true,
            WorkerState::Ready(_) => true,
            _ => false,
        }
    }

    /// The read-only query behind `Info`: the current snapshot or nothing.
    pub fn current_info(&self) -> (r: Option<RuntimeInfo>)
        ensures
            r == self.snapshot(),
    {
        match &self.state {
            WorkerState::Ready(info) => Some(info.clone()),
            _ => None,
        }
    }

    /// Processes an `Info` command: sends the current snapshot into the reply
    /// channel, or drops the channel unanswered when no model is loaded, and
    /// returns what it replied.  The state is never changed.
    pub fn handle_info(&self, reply: flume::Sender<RuntimeInfo>) -> (r: Option<RuntimeInfo>)
        ensures
            r == self.snapshot(),
    {
        let r = self.current_info();
        match &r {
            Some(info) => {
                let _delivered = channel_send(&reply, info.clone());
            },
            None => {},
        }
        r
    }

    /// Processes a `Subscribe` command: registers the stream and, because a
    /// new subscriber must not miss the current state, immediately pushes the
    /// current snapshot into it if one exists.
    pub fn handle_subscribe(&mut self, stream: flume::Sender<Option<RuntimeInfo>>)
        requires
            old(self).wf(),
        ensures
            final(self).wf(),
            final(self).state == old(self).state,
            final(self).subscribers@ == old(self).subscribers@.push(stream),
            final(self).pushed@ == old(self).pushed@.push(initial_push(old(self).state)),
    {
        match &self.state {
            WorkerState::Ready(info) => {
                let _delivered = channel_send(&stream, Some(info.clone()));
            },
            _ => {},
        }
        let ghost record = initial_push(self.state);
        self.subscribers.push(stream);
        proof {
            self.pushed@ = self.pushed@.push(record);
        }
    }

    /// Pushes one item to every registered subscriber, in registration order.
    fn push_to_all(&mut self, item: Option<RuntimeInfo>)
        requires
            old(self).wf(),
        ensures
            final(self).wf(),
            final(self).state == old(self).state,
            final(self).subscribers@ == old(self).subscribers@,
            final(self).pushed@ == Seq::new(
                old(self).pushed@.len(),
                |i: int| old(self).pushed@[i].push(item),
            ),
    {
        let ghost orig = *self;
        let mut i: usize = 0;
        while i < self.subscribers.len()
            invariant
                orig.wf(),
                i <= self.subscribers.len(),
                self.state == orig.state,
                self.subscribers@ == orig.subscribers@,
                self.pushed@.len() == orig.pushed@.len(),
                forall|j: int|
                    0 <= j < i ==> self.pushed@[j] == orig.pushed@[j].push(item),
                forall|j: int|
                    i <= j < self.pushed@.len() ==> self.pushed@[j] == orig.pushed@[j],
            decreases self.subscribers.len() - i,
        {
            let copy = match &item {
                Some(info) => Some(info.clone()),
                None => None,
            };
            let _delivered = channel_send(&self.subscribers[i], copy);
            proof {
                self.pushed@ = self.pushed@.update(i as int, self.pushed@[i as int].push(item));
            }
            i = i + 1;
        }
        proof {
            assert(self.pushed@ =~= Seq::new(
                orig.pushed@.len(),
                |i: int| orig.pushed@[i].push(item),
            ));
        }
    }

    /// Enters the transient `Loading` state for the duration of the load
    /// operation and hands back the prior snapshot, to be restored should the
    /// load fail.
    pub fn begin_reload(&mut self) -> (prior: Option<RuntimeInfo>)
        requires
            old(self).wf(),
            quiescent_state(old(self).state),
        ensures
            final(self).wf(),
            final(self).state is Loading,
            prior == old(self).snapshot(),
            final(self).subscribers@ == old(self).subscribers@,
            final(self).pushed@ == old(self).pushed@,
    {
        let prior = self.current_info();
        self.state = WorkerState::Loading;
        prior
    }

    /// Completes a reload with the outcome of the model construction.  On
    /// success the new snapshot is installed and pushed to every subscriber;
    /// on failure the pre-attempt state is restored untouched and nobody is
    /// notified.  The reply — success exactly when the model was built — is
    /// sent into the reply channel if one was supplied, and returned.
    pub fn finish_reload(
        &mut self,
        prior: Option<RuntimeInfo>,
        request: ReloadRequest,
        loaded: Option<ModelMeta>,
        reply: Option<flume::Sender<bool>>,
    ) -> (ok: bool)
        requires
            old(self).wf(),
            old(self).state is Loading,
        ensures
            final(self).wf(),
            ok == reload_reply(loaded),
            final(self).state == next_state(restore_state(prior), Event::Reload { request, loaded }),
            quiescent_state(final(self).state),
            final(self).subscribers@ == old(self).subscribers@,
            final(self).pushed@ == push_all(
                old(self).pushed@,
                event_pushes(restore_state(prior), Event::Reload { request, loaded }),
            ),
    {
        match loaded {
            Some(meta) => {
                let info = RuntimeInfo { reload: request, model: meta };
                self.state = WorkerState::Ready(info.clone());
                self.push_to_all(Some(info));
                match &reply {
                    Some(sender) => {
                        let _delivered = channel_send(sender, true);
                    },
                    None => {},
                }
                proof {
                    assert(self.pushed@ =~~= push_all(
                        old(self).pushed@,
                        event_pushes(restore_state(prior), Event::Reload { request, loaded }),
                    ));
                }
                true
            },
            None => {
                self.state = match prior {
                    Some(info) => WorkerState::Ready(info),
                    None => WorkerState::Empty,
                };
                match &reply {
                    Some(sender) => {
                        let _delivered = channel_send(sender, false);
                    },
                    None => {},
                }
                proof {
                    assert(self.pushed@ =~~= push_all(
                        old(self).pushed@,
                        event_pushes(restore_state(prior), Event::Reload { request, loaded }),
                    ));
                }
                false
            },
        }
    }

    /// Processes an `Unload` command: passes through the transient
    /// `Unloading` state while the model resource is released, ends in
    /// `Empty`, and notifies every subscriber that no model is loaded.
    /// Unloading an already-empty worker succeeds the same way.
    pub fn handle_unload(&mut self)
        requires
            old(self).wf(),
            quiescent_state(old(self).state),
        ensures
            final(self).wf(),
            final(self).state is Empty,
            final(self).subscribers@ == old(self).subscribers@,
            final(self).pushed@ == push_all(old(self).pushed@, seq![None]),
    {
        // Dropping the previous state here releases the model resource.
        self.state = WorkerState::Unloading;
        self.state = WorkerState::Empty;
        self.push_to_all(None);
        proof {
            assert(self.pushed@ =~~= push_all(old(self).pushed@, seq![None]));
        }
    }

    /// Processes one command whose outside work, if any, has already been
    /// done: `loaded` is the outcome of the model construction for a reload
    /// and is ignored otherwise.  The state moves exactly per the transition
    /// relation, and the pushes follow the delivery policy.
    pub fn process_command(&mut self, cmd: ThreadRequest, loaded: Option<ModelMeta>)
        requires
            old(self).wf(),
            quiescent_state(old(self).state),
        ensures
            final(self).wf(),
            final(self).state == next_state(old(self).state, event_of(cmd, loaded)),
            quiescent_state(final(self).state),
            final(self).subscribers@ == (match cmd {
                ThreadRequest::Subscribe { sender } => old(self).subscribers@.push(sender),
                _ => old(self).subscribers@,
            }),
            final(self).pushed@ == next_pushed(
                old(self).state,
                old(self).pushed@,
                event_of(cmd, loaded),
            ),
    {
        match cmd {
            ThreadRequest::Reload { request, sender } => {
                let prior = self.begin_reload();
                proof {
                    assert(restore_state(prior) == old(self).state);
                }
                let _ok = self.finish_reload(prior, request, loaded, sender);
            },
            ThreadRequest::Unload => {
                self.handle_unload();
            },
            ThreadRequest::Info { sender } => {
                let _replied = self.handle_info(sender);
                proof {
                    assert(self.pushed@ =~~= next_pushed(
                        old(self).state,
                        old(self).pushed@,
                        event_of(cmd, loaded),
                    ));
                }
            },
            ThreadRequest::Subscribe { sender } => {
                self.handle_subscribe(sender);
            },
        }
    }
}

/// The quiescent state a saved snapshot stands for: `Ready` around a
/// snapshot, `Empty` around none.
pub open spec fn restore_state(prior: Option<RuntimeInfo>) -> WorkerState {
    match prior {
        Some(info) => WorkerState::Ready(info),
        None => WorkerState::Empty,
    }
}

/// Every subscriber's push record extended by the same batch of items.
pub open spec fn push_all(
    pushed: Seq<Seq<Option<RuntimeInfo>>>,
    items: Seq<Option<RuntimeInfo>>,
) -> Seq<Seq<Option<RuntimeInfo>>> {
    Seq::new(pushed.len(), |i: int| pushed[i] + items)
}

/// How the per-subscriber push records evolve when an event is processed in
/// state `s`: a new subscriber's record opens with its initial push, and
/// every existing record grows by what the event broadcasts.
pub open spec fn next_pushed(
    s: WorkerState,
    pushed: Seq<Seq<Option<RuntimeInfo>>>,
    e: Event,
) -> Seq<Seq<Option<RuntimeInfo>>> {
    match e {
        Event::Subscribe => pushed.push(initial_push(s)),
        _ => push_all(pushed, event_pushes(s, e)),
    }
}

} // verus!
