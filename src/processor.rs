//! The command processor of one worker: which contexts exist, what the
//! compositor may read of each without touching the driver, and which context
//! is bound to the worker's thread. The driver work itself (allocating a
//! context, binding it, issuing GL calls) is done by the host, which asks this
//! state machine before each step and reports each outcome back.
use std::collections::HashMap;
use vstd::prelude::*;

verus! {

broadcast use vstd::std_specs::hash::group_hash_axioms;

/// Identifier of one GL context, minted by a command processor.
#[derive(Clone, Copy, Debug, PartialEq, Eq, Structural, Hash)]
pub struct WebGLContextId(pub usize);

/// Width and height of a drawing buffer, in pixels.
#[derive(Clone, Copy, Debug, PartialEq, Eq, Structural)]
pub struct Size2D {
    pub width: i32,
    pub height: i32,
}

impl Size2D {
    pub fn new(width: i32, height: i32) -> (r: Size2D)
        ensures
            r.width == width,
            r.height == height,
    {
        Size2D { width, height }
    }
}

/// What is cached of a context outside the driver: the texture that backs its
/// drawing buffer, and the buffer's size.
#[derive(Clone, Copy, Debug, PartialEq, Eq, Structural)]
pub struct ContextInfo {
    pub texture_id: u32,
    pub size: Size2D,
}

/// Whether a context must be made current before the driver is used for it.
#[derive(Clone, Copy, Debug, PartialEq, Eq, Structural)]
pub enum Binding {
    MakeCurrent,
    AlreadyCurrent,
}

/// The processor's state, as contracts see it.
pub struct ProcessorView {
    /// Cached info of each live context, by identifier.
    pub contexts: Map<usize, ContextInfo>,
    /// The context bound to the worker's thread, if the processor knows it.
    pub current: Option<WebGLContextId>,
    /// The identifier that the next successful creation mints.
    pub next_id: nat,
}

/// One input to the processor, as far as its state is concerned. A creation or
/// a resize carries what the driver reported: `None` for a failure.
pub enum ProcessorEvent {
    Create(Option<ContextInfo>),
    Command(WebGLContextId),
    Resize(WebGLContextId, Option<ContextInfo>),
    Remove(WebGLContextId),
}

pub open spec fn binding_for(current: Option<WebGLContextId>, id: WebGLContextId) -> Binding {
    if current == Some(id) {
        Binding::AlreadyCurrent
    } else {
        Binding::MakeCurrent
    }
}

impl ProcessorView {
    /// Every live identifier was minted, and the marker names a live context.
    pub open spec fn wf(self) -> bool {
        &&& forall|k: usize| #[trigger] self.contexts.contains_key(k) ==> k < self.next_id
        &&& self.current matches Some(c) ==> self.contexts.contains_key(c.0)
    }

    pub open spec fn is_live(self, id: WebGLContextId) -> bool {
        self.contexts.contains_key(id.0)
    }

    /// After a creation: the marker is cleared, and on success the next
    /// identifier is minted with the reported info.
    pub open spec fn created(self, info: Option<ContextInfo>) -> ProcessorView {
        match info {
            Some(i) => ProcessorView {
                contexts: self.contexts.insert(self.next_id as usize, i),
                current: None,
                next_id: self.next_id + 1,
            },
            None => ProcessorView { current: None, ..self },
        }
    }

    /// After a command (or any other use of the driver) for `id`: a live
    /// context becomes the bound one; an unknown identifier changes nothing.
    pub open spec fn bound(self, id: WebGLContextId) -> ProcessorView {
        if self.is_live(id) {
            ProcessorView { current: Some(id), ..self }
        } else {
            self
        }
    }

    /// After a resize of `id`: the context is bound, and on success its
    /// cached info is the reported one.
    pub open spec fn resized(self, id: WebGLContextId, info: Option<ContextInfo>) -> ProcessorView {
        let b = self.bound(id);
        match info {
            Some(i) if self.is_live(id) => ProcessorView {
                contexts: b.contexts.insert(id.0, i),
                ..b
            },
            _ => b,
        }
    }

    /// After a removal: the context and its cache entry are gone and the
    /// marker is cleared, whether or not `id` was live.
    pub open spec fn removed(self, id: WebGLContextId) -> ProcessorView {
        ProcessorView { contexts: self.contexts.remove(id.0), current: None, ..self }
    }

    pub open spec fn step(self, e: ProcessorEvent) -> ProcessorView {
        match e {
            ProcessorEvent::Create(info) => self.created(info),
            ProcessorEvent::Command(id) => self.bound(id),
            ProcessorEvent::Resize(id, info) => self.resized(id, info),
            ProcessorEvent::Remove(id) => self.removed(id),
        }
    }

    pub open spec fn run(self, events: Seq<ProcessorEvent>) -> ProcessorView
        decreases events.len(),
    {
        if events.len() == 0 {
            self
        } else {
            self.step(events[0]).run(events.drop_first())
        }
    }

    /// The identifiers that the successful creations of `events` mint, in order.
    pub open spec fn minted(self, events: Seq<ProcessorEvent>) -> Seq<nat>
        decreases events.len(),
    {
        if events.len() == 0 {
            Seq::empty()
        } else {
            let rest = self.step(events[0]).minted(events.drop_first());
            match events[0] {
                ProcessorEvent::Create(Some(_)) => seq![self.next_id].add(rest),
                _ => rest,
            }
        }
    }
}

/// Number of `make_current` calls that commands for the live contexts
/// `targets`, handled in order from the marker `current`, ask for.
pub open spec fn make_current_calls(current: Option<WebGLContextId>, targets: Seq<WebGLContextId>) -> nat
    decreases targets.len(),
{
    if targets.len() == 0 {
        0
    } else {
        (if binding_for(current, targets[0]) == Binding::MakeCurrent { 1nat } else { 0nat })
            + make_current_calls(Some(targets[0]), targets.drop_first())
    }
}

/// The target that precedes position `i` of `targets`: the marker for the first.
pub open spec fn previous_target(current: Option<WebGLContextId>, targets: Seq<WebGLContextId>, i: int) -> Option<WebGLContextId> {
    if i == 0 {
        current
    } else {
        Some(targets[i - 1])
    }
}

/// How many of the first `n` targets differ from the target before them.
pub open spec fn target_changes(current: Option<WebGLContextId>, targets: Seq<WebGLContextId>, n: nat) -> nat
    decreases n,
{
    if n == 0 {
        0
    } else {
        target_changes(current, targets, (n - 1) as nat)
            + (if previous_target(current, targets, n - 1) != Some(targets[n - 1]) { 1nat } else { 0nat })
    }
}

/// The state of one worker's command processor.
pub struct WebGLThread {
    cached_context_info: HashMap<usize, ContextInfo>,
    current_bound_webgl_context_id: Option<WebGLContextId>,
    next_webgl_id: usize,
}

impl View for WebGLThread {
    type V = ProcessorView;

    closed spec fn view(&self) -> ProcessorView {
        ProcessorView {
            contexts: self.cached_context_info@,
            current: self.current_bound_webgl_context_id,
            next_id: self.next_webgl_id as nat,
        }
    }
}

impl WebGLThread {
    /// A processor with no context and nothing bound.
    pub fn new() -> (r: WebGLThread)
        ensures
            r@.wf(),
            r@.contexts.is_empty(),
            r@.current is None,
            r@.next_id == 0,
    {
        WebGLThread {
            cached_context_info: HashMap::new(),
            current_bound_webgl_context_id: None,
            next_webgl_id: 0,
        }
    }

    /// Whether one more identifier can be minted.
    pub fn has_id_left(&self) -> (r: bool)
        ensures
            r == (self@.next_id < usize::MAX),
    {
        self.next_webgl_id < usize::MAX
    }

    /// Records the outcome of allocating a new context: `(size, texture id,
    /// limits)` as the driver reported them, or its error. On success the
    /// context gets a fresh identifier, returned with its limits. Creating a
    /// context may disturb the thread's binding, so the marker is cleared
    /// either way.
    pub fn create_webgl_context<L>(&mut self, created: Result<(Size2D, u32, L), String>) -> (r: Result<(WebGLContextId, L), String>)
        requires
            old(self)@.wf(),
            created is Ok ==> old(self)@.next_id < usize::MAX,
        ensures
            final(self)@.wf(),
            match created {
                Ok((size, texture_id, limits)) => {
                    &&& r == Ok::<(WebGLContextId, L), String>((WebGLContextId(old(self)@.next_id as usize), limits))
                    &&& final(self)@ == old(self)@.created(Some(ContextInfo { texture_id, size }))
                },
                Err(e) => {
                    &&& r == Err::<(WebGLContextId, L), String>(e)
                    &&& final(self)@ == old(self)@.created(None)
                },
            },
    {
        self.current_bound_webgl_context_id = None;
        match created {
            Ok((size, texture_id, limits)) => {
                let id = WebGLContextId(self.next_webgl_id);
                self.next_webgl_id = self.next_webgl_id + 1;
                self.cached_context_info.insert(id.0, ContextInfo { texture_id, size });
                Ok((id, limits))
            },
            Err(msg) => Err(msg),
        }
    }

    /// Makes `context_id` the bound context before the driver is used for it.
    /// Says whether the host must call `make_current` first: only when another
    /// context (or none known) was bound. `None` for an unknown identifier.
    pub fn bind(&mut self, context_id: WebGLContextId) -> (r: Option<Binding>)
        requires
            old(self)@.wf(),
        ensures
            final(self)@.wf(),
            final(self)@ == old(self)@.bound(context_id),
            r == (if old(self)@.is_live(context_id) {
                Some(binding_for(old(self)@.current, context_id))
            } else {
                None
            }),
    {
        if !self.cached_context_info.contains_key(&context_id.0) {
            return None;
        }
        if Some(context_id) != self.current_bound_webgl_context_id {
            self.current_bound_webgl_context_id = Some(context_id);
            Some(Binding::MakeCurrent)
        } else {
            Some(Binding::AlreadyCurrent)
        }
    }

    /// Prepares one GL command for `context_id`: see `bind`.
    pub fn handle_webgl_command(&mut self, context_id: WebGLContextId) -> (r: Option<Binding>)
        requires
            old(self)@.wf(),
        ensures
            final(self)@.wf(),
            final(self)@ == old(self)@.bound(context_id),
            r == (if old(self)@.is_live(context_id) {
                Some(binding_for(old(self)@.current, context_id))
            } else {
                None
            }),
    {
        self.bind(context_id)
    }

    /// Prepares one VR command for `context_id`: the binding as in `bind`,
    /// and, for a frame submission, the cached texture and size that the VR
    /// compositor is handed. `None` for an unknown identifier.
    pub fn handle_webvr_command(&mut self, context_id: WebGLContextId, submit_frame: bool) -> (r: Option<(Binding, Option<ContextInfo>)>)
        requires
            old(self)@.wf(),
        ensures
            final(self)@.wf(),
            final(self)@ == old(self)@.bound(context_id),
            r == (if old(self)@.is_live(context_id) {
                Some((binding_for(old(self)@.current, context_id),
                    if submit_frame { Some(old(self)@.contexts[context_id.0]) } else { None }))
            } else {
                None
            }),
    {
        match self.bind(context_id) {
            None => None,
            Some(binding) => {
                let texture = if submit_frame {
                    match self.cached_context_info.get(&context_id.0) {
                        Some(info) => Some(*info),
                        None => None,
                    }
                } else {
                    None
                };
                Some((binding, texture))
            },
        }
    }

    /// Records the outcome of resizing `context_id`. The resize is driver
    /// work on the context, so the host first calls `bind` (and
    /// `make_current` when it says so); a live context is therefore the bound
    /// one here. On success the cache takes the new texture and size; on
    /// failure the previous ones stay. An unknown identifier changes nothing.
    pub fn resize(&mut self, context_id: WebGLContextId, resized: Result<ContextInfo, String>) -> (r: Result<(), String>)
        requires
            old(self)@.wf(),
            old(self)@.is_live(context_id) ==> old(self)@.current == Some(context_id),
        ensures
            final(self)@.wf(),
            final(self)@.current == old(self)@.current,
            final(self)@ == old(self)@.resized(context_id, match resized {
                Ok(info) => Some(info),
                Err(_) => None,
            }),
            r == (match resized {
                Ok(_) => Ok::<(), String>(()),
                Err(e) => Err::<(), String>(e),
            }),
    {
        match resized {
            Ok(info) => {
                if self.cached_context_info.contains_key(&context_id.0) {
                    self.cached_context_info.insert(context_id.0, info);
                }
                Ok(())
            },
            Err(msg) => Err(msg),
        }
    }

    /// Forgets `context_id` and its cached info. Removing a context may
    /// disturb the thread's binding, so the marker is cleared. Says whether
    /// the context was live.
    pub fn remove_context(&mut self, context_id: WebGLContextId) -> (r: bool)
        requires
            old(self)@.wf(),
        ensures
            final(self)@.wf(),
            final(self)@ == old(self)@.removed(context_id),
            r == old(self)@.is_live(context_id),
    {
        let r = self.cached_context_info.remove(&context_id.0).is_some();
        self.current_bound_webgl_context_id = None;
        r
    }

    /// The cached texture id of a context, for a read-back request.
    pub fn send_data(&self, context_id: Option<WebGLContextId>) -> (r: Option<u32>)
        ensures
            r == (match context_id {
                Some(id) if self@.is_live(id) => Some(self@.contexts[id.0].texture_id),
                _ => None,
            }),
    {
        match context_id {
            Some(id) => match self.cached_context_info.get(&id.0) {
                Some(info) => Some(info.texture_id),
                None => None,
            },
            None => None,
        }
    }

    /// The cached texture and size of a context, for an external-image lock.
    /// `None` for a context that does not exist (or no longer does).
    pub fn lock(&self, context_id: WebGLContextId) -> (r: Option<ContextInfo>)
        ensures
            r == (if self@.is_live(context_id) {
                Some(self@.contexts[context_id.0])
            } else {
                None
            }),
    {
        match self.cached_context_info.get(&context_id.0) {
            Some(info) => Some(*info),
            None => None,
        }
    }

    /// The context bound to the worker's thread, as far as the processor knows.
    pub fn current_bound(&self) -> (r: Option<WebGLContextId>)
        ensures
            r == self@.current,
    {
        self.current_bound_webgl_context_id
    }
}


proof fn lemma_target_changes_shift(current: Option<WebGLContextId>, targets: Seq<WebGLContextId>, n: nat)
    requires
        1 <= n <= targets.len(),
    ensures
        target_changes(current, targets, n)
            == (if current != Some(targets[0]) { 1nat } else { 0nat })
            + target_changes(Some(targets[0]), targets.drop_first(), (n - 1) as nat),
    decreases n,
{
    if n > 1 {
        lemma_target_changes_shift(current, targets, (n - 1) as nat);
        let rest = targets.drop_first();
        assert(previous_target(Some(targets[0]), rest, n - 2) == Some(targets[n - 2]));
        assert(rest[n - 2] == targets[n - 1]);
        assert(target_changes(Some(targets[0]), rest, (n - 1) as nat)
            == target_changes(Some(targets[0]), rest, (n - 2) as nat)
            + (if previous_target(Some(targets[0]), rest, n - 2) != Some(rest[n - 2]) { 1nat } else { 0nat }));
    } else {
        assert(target_changes(current, targets, 0) == 0);
        assert(target_changes(Some(targets[0]), targets.drop_first(), 0) == 0);
    }
}

/// Commands handled in order ask for `make_current` exactly as often as the
/// target differs from the target of the command before it (the first one is
/// compared with the marker), and never more.
pub proof fn lemma_make_current_count(current: Option<WebGLContextId>, targets: Seq<WebGLContextId>)
    ensures
        make_current_calls(current, targets) == target_changes(current, targets, targets.len()),
    decreases targets.len(),
{
    if targets.len() > 0 {
        lemma_make_current_count(Some(targets[0]), targets.drop_first());
        lemma_target_changes_shift(current, targets, targets.len());
    }
}

/// The identifiers that successive creations mint are pairwise distinct and
/// strictly increasing, and none of them was live before, so an identifier
/// that has been removed is never handed out again.
pub proof fn lemma_minted_ids_increase(v: ProcessorView, events: Seq<ProcessorEvent>)
    requires
        v.wf(),
    ensures
        v.run(events).next_id >= v.next_id,
        forall|i: int, j: int|
            0 <= i < j < v.minted(events).len() ==> v.minted(events)[i] < v.minted(events)[j],
        forall|i: int|
            0 <= i < v.minted(events).len() ==> v.next_id <= #[trigger] v.minted(events)[i] < v.run(events).next_id,
        forall|i: int, k: usize|
            #![trigger v.minted(events)[i], v.contexts.contains_key(k)]
            0 <= i < v.minted(events).len() && v.contexts.contains_key(k) ==> k < v.minted(events)[i],
    decreases events.len(),
{
    if events.len() > 0 {
        let v1 = v.step(events[0]);
        let rest = events.drop_first();
        lemma_step_wf(v, events[0]);
        lemma_minted_ids_increase(v1, rest);
        let m = v.minted(events);
        let mr = v1.minted(rest);
        match events[0] {
            ProcessorEvent::Create(Some(_)) => {
                assert(m == seq![v.next_id].add(mr));
                assert forall|i: int, j: int| 0 <= i < j < m.len() implies m[i] < m[j] by {
                    if i > 0 {
                        assert(m[i] == mr[i - 1]);
                    }
                    assert(m[j] == mr[j - 1]);
                }
                assert forall|i: int| 0 <= i < m.len() implies v.next_id <= #[trigger] m[i] < v.run(events).next_id by {
                    if i > 0 {
                        assert(m[i] == mr[i - 1]);
                    }
                }
            },
            _ => {
                assert(m == mr);
            },
        }
    }
}

/// Every step keeps the state well formed, and never lowers the next identifier.
pub proof fn lemma_step_wf(v: ProcessorView, e: ProcessorEvent)
    requires
        v.wf(),
    ensures
        v.step(e).wf(),
        v.step(e).next_id >= v.next_id,
{
    match e {
        ProcessorEvent::Create(Some(i)) => {
            let w = v.step(e);
            assert forall|k: usize| #[trigger] w.contexts.contains_key(k) implies k < w.next_id by {
                if k != v.next_id as usize {
                    assert(v.contexts.contains_key(k));
                }
            }
        },
        _ => {},
    }
}

/// After a successful resize, a lock or a read-back of the context returns
/// exactly the texture and size that the driver reported after the resize.
pub proof fn lemma_resize_then_lock(v: ProcessorView, id: WebGLContextId, info: ContextInfo)
    requires
        v.wf(),
        v.is_live(id),
    ensures
        v.resized(id, Some(info)).is_live(id),
        v.resized(id, Some(info)).contexts[id.0] == info,
        v.resized(id, Some(info)).current == Some(id),
{
}

/// Once the bound context is removed, the next command for any other live
/// context asks for exactly one `make_current`, however many follow it.
pub proof fn lemma_removal_invalidates_binding(v: ProcessorView, id: WebGLContextId, other: WebGLContextId, n: nat)
    requires
        v.wf(),
        v.current == Some(id),
        v.is_live(other),
        other != id,
        n >= 1,
    ensures
        v.removed(id).current is None,
        v.removed(id).is_live(other),
        binding_for(v.removed(id).current, other) == Binding::MakeCurrent,
        make_current_calls(v.removed(id).current, Seq::new(n, |_i: int| other)) == 1,
{
    let t = Seq::new(n, |_i: int| other);
    assert(t.drop_first() =~= Seq::new((n - 1) as nat, |_i: int| other));
    lemma_make_current_count(Some(other), t.drop_first());
    lemma_target_changes_upto_const(Some(other), other, (n - 1) as nat, (n - 1) as nat);
}

proof fn lemma_target_changes_upto_const(current: Option<WebGLContextId>, other: WebGLContextId, len: nat, n: nat)
    requires
        current == Some(other),
        n <= len,
    ensures
        target_changes(current, Seq::new(len, |_i: int| other), n) == 0,
    decreases n,
{
    if n > 0 {
        lemma_target_changes_upto_const(current, other, len, (n - 1) as nat);
    }
}


/// The command events for `targets`, in order.
pub open spec fn commands(targets: Seq<WebGLContextId>) -> Seq<ProcessorEvent> {
    targets.map_values(|t: WebGLContextId| ProcessorEvent::Command(t))
}

proof fn lemma_run_push(v: ProcessorView, events: Seq<ProcessorEvent>, e: ProcessorEvent)
    ensures
        v.run(events.push(e)) == v.run(events).step(e),
    decreases events.len(),
{
    if events.len() > 0 {
        assert(events.push(e)[0] == events[0]);
        assert(events.push(e).drop_first() =~= events.drop_first().push(e));
        lemma_run_push(v.step(events[0]), events.drop_first(), e);
    } else {
        assert(events.push(e)[0] == e);
        assert(events.push(e).drop_first() =~= Seq::<ProcessorEvent>::empty());
        assert(v.step(e).run(Seq::<ProcessorEvent>::empty()) == v.step(e));
        assert(v.run(events) == v);
    }
}

/// Before the `i`-th of a run of commands for live contexts, the marker names
/// the target of the command before it (the first one sees the initial
/// marker), and the contexts are untouched. So each command asks for
/// `make_current` exactly when its target differs from the previous target.
pub proof fn lemma_marker_tracks_previous_target(v: ProcessorView, targets: Seq<WebGLContextId>, i: int)
    requires
        v.wf(),
        0 <= i <= targets.len(),
        forall|j: int| 0 <= j < targets.len() ==> v.is_live(#[trigger] targets[j]),
    ensures
        v.run(commands(targets.take(i))).current == previous_target(v.current, targets, i),
        v.run(commands(targets.take(i))).contexts == v.contexts,
        v.run(commands(targets.take(i))).next_id == v.next_id,
    decreases i,
{
    if i == 0 {
        assert(commands(targets.take(0)) =~= Seq::<ProcessorEvent>::empty());
    } else {
        lemma_marker_tracks_previous_target(v, targets, i - 1);
        assert(commands(targets.take(i)) =~= commands(targets.take(i - 1)).push(ProcessorEvent::Command(targets[i - 1])));
        lemma_run_push(v, commands(targets.take(i - 1)), ProcessorEvent::Command(targets[i - 1]));
        assert(v.is_live(targets[i - 1]));
    }
}


/// How many of the first `n` of a run of `handle_webgl_command` calls for
/// `targets`, made in order from the state `v`, answer `MakeCurrent`: call
/// `i` sees the state that the calls before it left.
pub open spec fn make_current_answers(v: ProcessorView, targets: Seq<WebGLContextId>, n: nat) -> nat
    decreases n,
{
    if n == 0 {
        0
    } else {
        make_current_answers(v, targets, (n - 1) as nat)
            + (if binding_for(v.run(commands(targets.take(n - 1))).current, targets[n - 1]) == Binding::MakeCurrent {
                1nat
            } else {
                0nat
            })
    }
}

/// A run of commands for live contexts asks for `make_current` exactly as
/// often as a target differs from the one before it (the first from the
/// initial marker): consecutive commands for one context never switch again.
pub proof fn lemma_run_make_current_count(v: ProcessorView, targets: Seq<WebGLContextId>, n: nat)
    requires
        v.wf(),
        n <= targets.len(),
        forall|j: int| 0 <= j < targets.len() ==> v.is_live(#[trigger] targets[j]),
    ensures
        make_current_answers(v, targets, n) == target_changes(v.current, targets, n),
    decreases n,
{
    if n > 0 {
        lemma_run_make_current_count(v, targets, (n - 1) as nat);
        lemma_marker_tracks_previous_target(v, targets, n - 1);
    }
}

/// An identifier minted before a run (one below the next to mint), even if
/// its context has been removed since, is never handed out again by it.
pub proof fn lemma_removed_id_not_reissued(v: ProcessorView, events: Seq<ProcessorEvent>, earlier: WebGLContextId)
    requires
        v.wf(),
        (earlier.0 as nat) < v.next_id,
    ensures
        forall|i: int| 0 <= i < v.minted(events).len()
            ==> #[trigger] v.minted(events)[i] > earlier.0 && v.minted(events)[i] != earlier.0 as nat,
{
    lemma_minted_ids_increase(v, events);
}

} // verus!
