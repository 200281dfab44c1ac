//! Routing between callers, the compositor and the workers: which worker owns
//! each context, the control channel of each worker with the reply channel
//! kept for its external-image locks, and the best-effort shutdown of all of
//! them. The synchronous mode, which has no worker, answers locks from a map
//! of its own.
use crate::channel::{webgl_channel, WebGLReceiver, WebGLSender};
use crate::processor::{ContextInfo, WebGLContextId};
use std::collections::HashMap;
use vstd::prelude::*;

verus! {

broadcast use vstd::std_specs::hash::group_hash_axioms;

/// A message to a worker. The control messages are fixed; `C` carries the
/// rest (context creation, GL and VR commands, read-back requests).
pub enum WebGLMsg<C> {
    Payload(C),
    Lock(WebGLContextId, WebGLSender<Option<ContextInfo>>),
    Unlock(WebGLContextId),
    Exit,
}

/// Number of deliveries that failed.
pub open spec fn failures(delivered: Seq<bool>) -> nat
    decreases delivered.len(),
{
    if delivered.len() == 0 {
        0
    } else {
        failures(delivered.drop_last()) + (if delivered.last() { 0nat } else { 1nat })
    }
}

/// What a shutdown reports once it has tried every worker: success, or how
/// many workers it could not reach.
pub open spec fn exit_result(delivered: Seq<bool>) -> Result<(), usize> {
    if failures(delivered) == 0 {
        Ok(())
    } else {
        Err(failures(delivered) as usize)
    }
}

proof fn lemma_failures_bound(delivered: Seq<bool>)
    ensures
        failures(delivered) <= delivered.len(),
    decreases delivered.len(),
{
    if delivered.len() > 0 {
        lemma_failures_bound(delivered.drop_last());
    }
}

/// Summarises a shutdown from whether each worker got its exit message.
pub fn exit_summary(delivered: &Vec<bool>) -> (r: Result<(), usize>)
    ensures
        r == exit_result(delivered@),
{
    let mut n: usize = 0;
    let mut i: usize = 0;
    while i < delivered.len()
        invariant
            0 <= i <= delivered@.len(),
            n == failures(delivered@.subrange(0, i as int)),
        decreases delivered@.len() - i,
    {
        proof {
            lemma_failures_bound(delivered@.subrange(0, i as int));
            assert(delivered@.subrange(0, i as int + 1).drop_last() =~= delivered@.subrange(0, i as int));
        }
        if !delivered[i] {
            n = n + 1;
        }
        i = i + 1;
    }
    assert(delivered@.subrange(0, delivered@.len() as int) =~= delivered@);
    if n > 0 {
        Err(n)
    } else {
        Ok(())
    }
}

/// A shutdown is best effort: when exactly one of the workers cannot be
/// reached, it reports exactly one failure, whatever the number of workers,
/// and the others count as reached.
pub proof fn lemma_exit_best_effort(delivered: Seq<bool>, unreachable: int)
    requires
        0 <= unreachable < delivered.len(),
        !delivered[unreachable],
        forall|i: int| 0 <= i < delivered.len() && i != unreachable ==> delivered[i],
    ensures
        failures(delivered) == 1,
        exit_result(delivered) == Err::<(), usize>(1),
{
    lemma_failures_one(delivered, unreachable, delivered.len());
    assert(delivered.subrange(0, delivered.len() as int) =~= delivered);
}

proof fn lemma_failures_one(delivered: Seq<bool>, unreachable: int, n: nat)
    requires
        0 <= unreachable < delivered.len(),
        n <= delivered.len(),
        forall|i: int| 0 <= i < delivered.len() && i != unreachable ==> delivered[i],
        !delivered[unreachable],
    ensures
        failures(delivered.subrange(0, n as int)) == (if unreachable < n { 1nat } else { 0nat }),
    decreases n,
{
    if n > 0 {
        lemma_failures_one(delivered, unreachable, (n - 1) as nat);
        assert(delivered.subrange(0, n as int).drop_last() =~= delivered.subrange(0, n - 1));
    }
}

/// The control channel of one worker, with the reply channel reused for each
/// lock it answers.
#[verifier::reject_recursive_types(C)]
pub struct WebGLExternalImageChannels<C> {
    pub webgl_channel: WebGLSender<WebGLMsg<C>>,
    pub lock_channel: (WebGLSender<Option<ContextInfo>>, WebGLReceiver<Option<ContextInfo>>),
}

/// The routing state of the threaded mode, as contracts see it.
pub struct ThreadsView {
    /// The worker that serves each live context.
    pub owners: Map<usize, u32>,
    /// Number of workers started; worker `t` has the identifier `t`.
    pub workers: nat,
}

/// The threaded mode: one worker per pipeline, each serving the contexts
/// created through it.
#[verifier::reject_recursive_types(C)]
pub struct WebGLThreads<C> {
    thread_map: HashMap<usize, u32>,
    external_image_map: Vec<WebGLExternalImageChannels<C>>,
}

impl<C> View for WebGLThreads<C> {
    type V = ThreadsView;

    closed spec fn view(&self) -> ThreadsView {
        ThreadsView { owners: self.thread_map@, workers: self.external_image_map@.len() }
    }
}

impl<C> WebGLThreads<C> {
    /// Every context is served by a started worker.
    pub closed spec fn wf(&self) -> bool {
        forall|k: usize| #[trigger] self.thread_map@.contains_key(k)
            ==> (self.thread_map@[k] as nat) < self.external_image_map@.len()
    }

    /// The channels of the started workers; worker `t` is reached through
    /// entry `t`.
    pub closed spec fn channels(&self) -> Seq<WebGLExternalImageChannels<C>> {
        self.external_image_map@
    }

    pub fn new() -> (r: WebGLThreads<C>)
        ensures
            r.wf(),
            r.channels().len() == 0,
            r@.owners.is_empty(),
            r@.workers == 0,
    {
        WebGLThreads { thread_map: HashMap::new(), external_image_map: Vec::new() }
    }

    /// Registers a newly started worker, reached through `channel`, and
    /// returns its identifier, which its contexts are recorded under. `None`
    /// (nothing registered) once every identifier is taken.
    pub fn pipeline(&mut self, channel: WebGLSender<WebGLMsg<C>>) -> (r: Option<u32>)
        requires
            old(self).wf(),
        ensures
            final(self).wf(),
            final(self)@.owners == old(self)@.owners,
            old(self)@.workers == old(self).channels().len(),
            final(self)@.workers == final(self).channels().len(),
            old(self)@.workers < u32::MAX ==> {
                &&& r == Some(old(self)@.workers as u32)
                &&& final(self).channels().len() == old(self).channels().len() + 1
                &&& final(self).channels()[old(self)@.workers as int].webgl_channel == channel
                &&& forall|t: int| 0 <= t < old(self).channels().len()
                    ==> #[trigger] final(self).channels()[t] == old(self).channels()[t]
            },
            old(self)@.workers >= u32::MAX ==> r is None && final(self)@ == old(self)@
                && final(self).channels() == old(self).channels(),
    {
        if self.external_image_map.len() >= u32::MAX as usize {
            return None;
        }
        let thread_id = self.external_image_map.len() as u32;
        let lock_channel = match webgl_channel() {
            Ok(pair) => pair,
            Err(()) => {
                return None;
            },
        };
        self.external_image_map.push(WebGLExternalImageChannels { webgl_channel: channel, lock_channel });
        Some(thread_id)
    }

    /// Records that the worker `thread_id` has created `ctx_id`.
    pub fn on_context_create(&mut self, ctx_id: WebGLContextId, thread_id: u32)
        requires
            old(self).wf(),
            (thread_id as nat) < old(self)@.workers,
        ensures
            final(self).wf(),
            final(self)@ == (ThreadsView { owners: old(self)@.owners.insert(ctx_id.0, thread_id), ..old(self)@ }),
            final(self).channels() == old(self).channels(),
    {
        self.thread_map.insert(ctx_id.0, thread_id);
    }

    /// Records that `ctx_id` has been removed.
    pub fn on_context_delete(&mut self, ctx_id: WebGLContextId)
        requires
            old(self).wf(),
        ensures
            final(self).wf(),
            final(self)@ == (ThreadsView { owners: old(self)@.owners.remove(ctx_id.0), ..old(self)@ }),
            final(self).channels() == old(self).channels(),
    {
        self.thread_map.remove(&ctx_id.0);
    }

    /// The worker that serves `ctx_id`.
    pub fn owner(&self, ctx_id: WebGLContextId) -> (r: Option<u32>)
        ensures
            r == (if self@.owners.contains_key(ctx_id.0) { Some(self@.owners[ctx_id.0]) } else { None }),
    {
        match self.thread_map.get(&ctx_id.0) {
            Some(t) => Some(*t),
            None => None,
        }
    }

    /// The channels of the worker that owns `ctx_id`; `None` for a context
    /// that no worker owns.
    pub fn route(&self, ctx_id: WebGLContextId) -> (r: Option<&WebGLExternalImageChannels<C>>)
        requires
            self.wf(),
        ensures
            match r {
                Some(c) => {
                    &&& self@.owners.contains_key(ctx_id.0)
                    &&& *c == self.channels()[self@.owners[ctx_id.0] as int]
                },
                None => !self@.owners.contains_key(ctx_id.0),
            },
    {
        match self.thread_map.get(&ctx_id.0) {
            Some(t) => Some(&self.external_image_map[*t as usize]),
            None => None,
        }
    }

    /// Asks the worker that owns `ctx_id` (the one `route` picks) for the
    /// context's texture and size, after everything queued to it before: a
    /// `Lock` carrying the reply sender kept for that worker, answered on the
    /// matching receiver. `None` for a context that no worker owns, that its
    /// worker no longer has, or when the `Lock` cannot be delivered.
    ///
    /// There is no timeout: the reply channel stays open while this value
    /// lives, so a worker that takes the `Lock` and then dies without
    /// answering leaves the call waiting for good.
    pub fn lock(&self, ctx_id: WebGLContextId) -> (r: Option<ContextInfo>)
        requires
            self.wf(),
        ensures
            !self@.owners.contains_key(ctx_id.0) ==> r is None,
    {
        let channels = match self.route(ctx_id) {
            Some(c) => c,
            None => {
                return None;
            },
        };
        let reply = channels.lock_channel.0.clone();
        if channels.webgl_channel.send(WebGLMsg::Lock(ctx_id, reply)).is_err() {
            return None;
        }
        match channels.lock_channel.1.recv() {
            Ok(info) => info,
            Err(_) => None,
        }
    }

    /// Tells the worker that owns `ctx_id` (the one `route` picks) that the
    /// compositor is done with its texture. Says whether the message went
    /// out: never for a context that no worker owns.
    pub fn unlock(&self, ctx_id: WebGLContextId) -> (r: bool)
        requires
            self.wf(),
        ensures
            !self@.owners.contains_key(ctx_id.0) ==> !r,
    {
        match self.route(ctx_id) {
            Some(channels) => channels.webgl_channel.send(WebGLMsg::Unlock(ctx_id)).is_ok(),
            None => false,
        }
    }

    /// Sends `Exit` to every worker, going on past those that cannot be
    /// reached, and reports how many could not.
    pub fn exit(&self) -> (r: Result<(), usize>)
        ensures
            exists|delivered: Seq<bool>| delivered.len() == self@.workers && r == exit_result(delivered),
    {
        let mut delivered: Vec<bool> = Vec::new();
        let mut i: usize = 0;
        while i < self.external_image_map.len()
            invariant
                0 <= i <= self.external_image_map@.len(),
                delivered@.len() == i,
            decreases self.external_image_map@.len() - i,
        {
            let sent = self.external_image_map[i].webgl_channel.send(WebGLMsg::Exit).is_ok();
            delivered.push(sent);
            i = i + 1;
        }
        exit_summary(&delivered)
    }
}

/// The synchronous mode's answer to locks: the texture and size of each
/// context, as the worker last reported them. There is no concurrent writer,
/// so a lock is a plain read and an unlock does nothing.
pub struct WebGLExternalImages {
    map: HashMap<usize, ContextInfo>,
}

impl View for WebGLExternalImages {
    type V = Map<usize, ContextInfo>;

    closed spec fn view(&self) -> Map<usize, ContextInfo> {
        self.map@
    }
}

impl WebGLExternalImages {
    pub fn new() -> (r: WebGLExternalImages)
        ensures
            r@.is_empty(),
    {
        WebGLExternalImages { map: HashMap::new() }
    }

    pub fn on_context_create(&mut self, ctx_id: WebGLContextId, info: ContextInfo)
        ensures
            final(self)@ == old(self)@.insert(ctx_id.0, info),
    {
        self.map.insert(ctx_id.0, info);
    }

    pub fn on_context_resize(&mut self, ctx_id: WebGLContextId, info: ContextInfo)
        ensures
            final(self)@ == old(self)@.insert(ctx_id.0, info),
    {
        self.map.insert(ctx_id.0, info);
    }

    pub fn on_context_delete(&mut self, ctx_id: WebGLContextId)
        ensures
            final(self)@ == old(self)@.remove(ctx_id.0),
    {
        self.map.remove(&ctx_id.0);
    }

    /// The last reported texture and size of `ctx_id`; `None` once removed.
    pub fn lock(&self, ctx_id: WebGLContextId) -> (r: Option<ContextInfo>)
        ensures
            r == (if self@.contains_key(ctx_id.0) { Some(self@[ctx_id.0]) } else { None }),
    {
        match self.map.get(&ctx_id.0) {
            Some(info) => Some(*info),
            None => None,
        }
    }

    pub fn unlock(&self, _ctx_id: WebGLContextId) {
    }
}

} // verus!
