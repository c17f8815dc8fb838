use crate::gl::TlsState;
use vstd::prelude::*;

pub mod api;

verus! {

/// A drawable of the window system, by its identifier.
#[derive(Copy, Clone, Debug, PartialEq, Eq, Structural)]
pub struct Surface {
    pub drawable: u64,
}

/// The two states of a windowing context.
#[derive(Debug)]
pub enum State {
    /// Current on no thread: the graphics context is parked here.
    Inactive(Box<crate::gl::Context>),
    /// Current on a thread, which has the graphics context, and bound to a
    /// surface to read from and one to draw to.
    Current { read: Surface, draw: Surface },
}

/// A windowing context: what a client creates, makes current on a thread and
/// destroys.
#[derive(Debug)]
pub struct Context {
    pub state: State,
    /// The client has destroyed its handle; the context lives on only for as
    /// long as it is current.
    pub released: bool,
}

/// What the runtime keeps for one thread.
#[derive(Debug)]
pub struct Thread {
    /// The graphics context installed on the thread.
    pub slot: TlsState,
    /// The windowing context that is current on the thread.
    pub current: Option<usize>,
}

/// All windowing contexts and all threads, each known by its index.
#[derive(Debug)]
pub struct Runtime {
    pub contexts: Vec<Option<Context>>,
    pub threads: Vec<Thread>,
}

/// The mathematical content of a `Runtime`.
pub struct RuntimeModel {
    pub contexts: Seq<Option<Context>>,
    pub threads: Seq<Thread>,
}

impl View for Runtime {
    type V = RuntimeModel;

    open spec fn view(&self) -> RuntimeModel {
        RuntimeModel { contexts: self.contexts@, threads: self.threads@ }
    }
}

impl RuntimeModel {
    /// Whether `t` is a thread of this runtime.
    pub open spec fn has_thread(self, t: int) -> bool {
        0 <= t < self.threads.len()
    }

    /// Whether `h` is a windowing context that exists.
    pub open spec fn alive(self, h: int) -> bool {
        0 <= h < self.contexts.len() && self.contexts[h] is Some
    }

    /// Whether the windowing context `h` is current on thread `t`, which then
    /// holds the graphics context of `h`.
    pub open spec fn holds(self, t: int, h: int) -> bool {
        self.has_thread(t) && match self.threads[t].current {
            Some(current) => current as int == h,
            None => false,
        }
    }

    /// Whether a thread's two records agree with each other and with the
    /// contexts: a thread has a graphics context installed exactly while a
    /// windowing context is current on it, and that one exists and is in the
    /// state `Current`.
    pub open spec fn thread_ok(self, thread: Thread) -> bool {
        match thread.current {
            Some(h) => self.alive(h as int) && self.contexts[h as int]->0.state is Current && !(
            thread.slot is Empty),
            None => thread.slot is Empty,
        }
    }

    /// The invariant of the runtime.
    pub open spec fn wf(self) -> bool {
        &&& self.contexts.len() <= usize::MAX
        &&& self.threads.len() <= usize::MAX
        &&& forall|t: int| self.has_thread(t) ==> self.thread_ok(#[trigger] self.threads[t])
        &&& forall|t: int, u: int|
            self.has_thread(t) && self.has_thread(u) && t != u && (
            #[trigger] self.threads[t]).current is Some ==> self.threads[t].current != (
            #[trigger] self.threads[u]).current
        &&& forall|h: int|
            0 <= h < self.contexts.len() ==> match #[trigger] self.contexts[h] {
                Some(context) => context.released ==> context.state is Current,
                None => true,
            }
        &&& forall|h: int| #[trigger] self.bound(h) ==> exists|t: int| self.holds(t, h)
    }

    /// Whether the windowing context `h` exists and is in the state
    /// `Current`.
    pub open spec fn bound(self, h: int) -> bool {
        self.alive(h) && self.contexts[h]->0.state is Current
    }

    /// A runtime without contexts and threads.
    pub open spec fn initial() -> RuntimeModel {
        RuntimeModel { contexts: Seq::empty(), threads: Seq::empty() }
    }

    /// The runtime with one more thread, on which nothing is current.
    pub open spec fn with_thread(self) -> RuntimeModel {
        RuntimeModel {
            threads: self.threads.push(Thread { slot: TlsState::Empty, current: None }),
            ..self
        }
    }

    /// The runtime with one more windowing context, inactive, in which `gl`
    /// is parked.
    pub open spec fn created(self, gl: Box<crate::gl::Context>) -> RuntimeModel {
        RuntimeModel {
            contexts: self.contexts.push(
                Some(Context { state: State::Inactive(gl), released: false }),
            ),
            ..self
        }
    }

    /// Whether the context that is current on `t` can be taken off it: no
    /// call is working on it.
    pub open spec fn can_remove_current(self, t: int) -> bool {
        self.has_thread(t) && !(self.threads[t].slot is InUse)
    }

    /// The runtime after whatever is current on thread `t` was taken off it:
    /// the graphics context goes back into its windowing context, unless
    /// that one was destroyed meanwhile and now ceases to exist.
    pub open spec fn removed_current(self, t: int) -> RuntimeModel {
        let thread = self.threads[t];
        match (thread.current, thread.slot) {
            (Some(h), TlsState::Present(gl)) => RuntimeModel {
                contexts: self.contexts.update(
                    h as int,
                    if self.contexts[h as int]->0.released {
                        None
                    } else {
                        Some(Context { state: State::Inactive(gl), released: false })
                    },
                ),
                threads: self.threads.update(t, Thread { slot: TlsState::Empty, current: None }),
            },
            _ => self,
        }
    }

    /// Whether `h` can be made current on `t`: no call is working on the
    /// context that `t` has now, and `h` exists, was not destroyed, and is
    /// current on no other thread.
    pub open spec fn can_make_current(self, t: int, h: int) -> bool {
        &&& self.can_remove_current(t)
        &&& self.alive(h)
        &&& !self.contexts[h]->0.released
        &&& (self.contexts[h]->0.state is Inactive || self.holds(t, h))
    }

    /// The runtime after `h` was made current on `t`: first whatever was
    /// current on `t` is taken off it, then the graphics context of `h` is
    /// installed on `t` and `h` is bound to the two surfaces.
    pub open spec fn made_current(
        self,
        t: int,
        h: int,
        read: Surface,
        draw: Surface,
    ) -> RuntimeModel {
        let removed = self.removed_current(t);
        match removed.contexts[h] {
            Some(Context { state: State::Inactive(gl), released }) => RuntimeModel {
                contexts: removed.contexts.update(
                    h,
                    Some(Context { state: State::Current { read, draw }, released }),
                ),
                threads: removed.threads.update(
                    t,
                    Thread { slot: TlsState::Present(gl), current: Some(h as usize) },
                ),
            },
            _ => removed,
        }
    }

    /// Whether a call can begin to work on the graphics context of thread
    /// `t`: one is installed and no call is working on it.
    pub open spec fn can_begin_use(self, t: int) -> bool {
        self.has_thread(t) && self.threads[t].slot is Present
    }

    /// The runtime after the call `blame` began to work on the graphics
    /// context of thread `t`.
    pub open spec fn begun_use(self, t: int, blame: &'static str) -> RuntimeModel {
        RuntimeModel {
            threads: self.threads.update(
                t,
                Thread { slot: TlsState::InUse { blame }, current: self.threads[t].current },
            ),
            ..self
        }
    }

    /// Whether a call can hand back the graphics context of thread `t`: one
    /// is working on it.
    pub open spec fn can_end_use(self, t: int) -> bool {
        self.has_thread(t) && self.threads[t].slot is InUse
    }

    /// The runtime after the call that worked on the graphics context of
    /// thread `t` handed back `gl`.
    pub open spec fn ended_use(self, t: int, gl: Box<crate::gl::Context>) -> RuntimeModel {
        RuntimeModel {
            threads: self.threads.update(
                t,
                Thread { slot: TlsState::Present(gl), current: self.threads[t].current },
            ),
            ..self
        }
    }

    /// Whether the handle of `h` can be destroyed: `h` exists and its handle
    /// was not destroyed before.
    pub open spec fn can_destroy(self, h: int) -> bool {
        self.alive(h) && !self.contexts[h]->0.released
    }

    /// The runtime after the client destroyed its handle of `h`: an inactive
    /// context ceases to exist at once, with the graphics context parked in
    /// it; a current one lives on until it is taken off its thread.
    pub open spec fn destroyed(self, h: int) -> RuntimeModel {
        match self.contexts[h] {
            Some(Context { state: State::Current { read, draw }, released }) => RuntimeModel {
                contexts: self.contexts.update(
                    h,
                    Some(Context { state: State::Current { read, draw }, released: true }),
                ),
                ..self
            },
            _ => RuntimeModel { contexts: self.contexts.update(h, None), ..self },
        }
    }
}

impl Runtime {
    /// A runtime without contexts and threads.
    pub fn new() -> (runtime: Self)
        ensures
            runtime@ == RuntimeModel::initial(),
            runtime@.wf(),
    {
        Runtime { contexts: Vec::new(), threads: Vec::new() }
    }

    /// Makes a thread known to the runtime and returns its index. Nothing is
    /// current on it.
    pub fn add_thread(&mut self) -> (t: usize)
        requires
            old(self)@.wf(),
        ensures
            t == old(self)@.threads.len(),
            final(self)@ == old(self)@.with_thread(),
            final(self)@.wf(),
    {
        let t = self.threads.len();
        self.threads.push(Thread { slot: TlsState::Empty, current: None });
        proof {
            assert(self.threads@.len() == self.threads.len());
            assert forall|u: int| self@.has_thread(u) implies self@.thread_ok(
                #[trigger] self@.threads[u],
            ) by {
                if u < t {
                    assert(old(self)@.thread_ok(old(self)@.threads[u]));
                }
            }
            assert forall|k: int| #[trigger] self@.bound(k) implies exists|u: int|
                self@.holds(u, k) by {
                assert(old(self)@.bound(k));
                let u = choose|u: int| old(self)@.holds(u, k);
                assert(self@.holds(u, k));
            }
        }
        t
    }

    /// Creates a windowing context with a graphics context of its own, to
    /// which nothing has happened yet, and returns its index. It is inactive.
    pub fn create_context(&mut self) -> (h: usize)
        requires
            old(self)@.wf(),
        ensures
            h == old(self)@.contexts.len(),
            final(self)@.alive(h as int),
            final(self)@.contexts[h as int]->0.state is Inactive,
            final(self)@.contexts[h as int]->0.state->Inactive_0@
                == crate::gl::ContextModel::initial(),
            final(self)@ == old(self)@.created(
                final(self)@.contexts[h as int]->0.state->Inactive_0,
            ),
            final(self)@.wf(),
    {
        let h = self.contexts.len();
        let gl = Box::new(crate::gl::Context::new());
        self.contexts.push(Some(Context { state: State::Inactive(gl), released: false }));
        proof {
            assert(self.contexts@.len() == self.contexts.len());
            assert forall|u: int| self@.has_thread(u) implies self@.thread_ok(
                #[trigger] self@.threads[u],
            ) by {
                assert(old(self)@.thread_ok(old(self)@.threads[u]));
            }
            assert forall|k: int|
                0 <= k < self@.contexts.len() implies match #[trigger] self@.contexts[k] {
                Some(context) => context.released ==> context.state is Current,
                None => true,
            } by {
                if k < h {
                    let _ = old(self)@.contexts[k];
                }
            }
            assert forall|k: int| #[trigger] self@.bound(k) implies exists|u: int|
                self@.holds(u, k) by {
                assert(old(self)@.bound(k));
                let u = choose|u: int| old(self)@.holds(u, k);
                assert(self@.holds(u, k));
            }
        }
        h
    }

    /// The windowing context that is current on thread `t`, if one is.
    pub fn get_current(&self, t: usize) -> (current: Option<usize>)
        requires
            self@.has_thread(t as int),
        ensures
            current == self@.threads[t as int].current,
            current matches Some(h) ==> self@.holds(t as int, h as int),
    {
        self.threads[t].current
    }

    /// The surfaces that the context current on thread `t` is bound to, if
    /// one is current.
    pub fn surfaces(&self, t: usize) -> (bound: Option<(Surface, Surface)>)
        requires
            self@.wf(),
            self@.has_thread(t as int),
        ensures
            bound == (match self@.threads[t as int].current {
                Some(h) => Some(
                    (
                        self@.contexts[h as int]->0.state->read,
                        self@.contexts[h as int]->0.state->draw,
                    ),
                ),
                None => None,
            }),
    {
        match self.threads[t].current {
            Some(h) => {
                assert(self@.thread_ok(self@.threads[t as int]));
                match &self.contexts[h] {
                    Some(Context { state: State::Current { read, draw }, .. }) => Some(
                        (*read, *draw),
                    ),
                    _ => None,
                }
            },
            None => None,
        }
    }

    /// Whether `remove_current` can be called for thread `t`.
    pub fn can_remove_current(&self, t: usize) -> (ok: bool)
        ensures
            ok == self@.can_remove_current(t as int),
    {
        t < self.threads.len() && self.threads[t].slot.in_use_by().is_none()
    }

    /// Takes whatever is current on thread `t` off it and returns the index
    /// of that windowing context, or `None` where nothing was current. The
    /// graphics context goes back into the windowing context, which is
    /// inactive again.
    pub fn remove_current(&mut self, t: usize) -> (removed: Option<usize>)
        requires
            old(self)@.wf(),
            old(self)@.can_remove_current(t as int),
        ensures
            removed == old(self)@.threads[t as int].current,
            final(self)@ == old(self)@.removed_current(t as int),
            final(self)@.wf(),
    {
        proof {
            assert(self@.thread_ok(self@.threads[t as int]));
        }
        let current = self.threads[t].current;
        match current {
            None => None,
            Some(h) => {
                let left = crate::gl::Context::leave(&mut self.threads[t].slot);
                self.threads[t].current = None;
                match left {
                    Some(gl) => {
                        let released = match &self.contexts[h] {
                            Some(context) => context.released,
                            None => false,
                        };
                        if released {
                            self.contexts[h] = None;
                        } else {
                            self.contexts[h] = Some(
                                Context { state: State::Inactive(gl), released: false },
                            );
                        }
                    },
                    None => {},
                }
                proof {
                    assert(self@.threads =~= old(self)@.removed_current(t as int).threads);
                    assert(self@.contexts =~= old(self)@.removed_current(t as int).contexts);
                    lemma_removed_current_wf(old(self)@, t as int);
                }
                Some(h)
            },
        }
    }

    /// Whether `make_current` can be called for thread `t` and context `h`.
    pub fn can_make_current(&self, t: usize, h: usize) -> (ok: bool)
        ensures
            ok == self@.can_make_current(t as int, h as int),
    {
        if !self.can_remove_current(t) || h >= self.contexts.len() {
            return false;
        }
        match &self.contexts[h] {
            Some(context) => !context.released && (match context.state {
                State::Inactive(_) => true,
                State::Current { .. } => match self.threads[t].current {
                    Some(current) => current == h,
                    None => false,
                },
            }),
            None => false,
        }
    }

    /// Makes the windowing context `h` current on thread `t`, bound to the
    /// two surfaces. Whatever was current on `t` is taken off it first.
    pub fn make_current(&mut self, t: usize, h: usize, read: Surface, draw: Surface)
        requires
            old(self)@.wf(),
            old(self)@.can_make_current(t as int, h as int),
        ensures
            final(self)@ == old(self)@.made_current(t as int, h as int, read, draw),
            final(self)@.holds(t as int, h as int),
            final(self)@.wf(),
    {
        proof {
            lemma_made_current_wf(self@, t as int, h as int, read, draw);
        }
        self.remove_current(t);
        let ghost removed = self@;
        let mut taken: Option<Context> = None;
        std::mem::swap(&mut self.contexts[h], &mut taken);
        match taken {
            Some(Context { state: State::Inactive(gl), released }) => {
                self.contexts[h] = Some(Context { state: State::Current { read, draw }, released });
                gl.enter(&mut self.threads[t].slot);
                self.threads[t].current = Some(h);
            },
            other => {
                self.contexts[h] = other;
            },
        }
        proof {
            assert(self@.threads =~= old(self)@.made_current(
                t as int,
                h as int,
                read,
                draw,
            ).threads);
            assert(self@.contexts =~= old(self)@.made_current(
                t as int,
                h as int,
                read,
                draw,
            ).contexts);
        }
    }

    /// Whether `begin_use` can be called for thread `t`.
    pub fn can_begin_use(&self, t: usize) -> (ok: bool)
        ensures
            ok == self@.can_begin_use(t as int),
    {
        t < self.threads.len() && self.threads[t].slot.is_present()
    }

    /// The call `blame` begins to work on the graphics context of thread
    /// `t` and receives it. Until the context is handed back no other call
    /// can begin on `t`, and nothing can be made current on `t` or taken off
    /// it.
    pub fn begin_use(&mut self, t: usize, blame: &'static str) -> (gl: Box<crate::gl::Context>)
        requires
            old(self)@.wf(),
            old(self)@.can_begin_use(t as int),
        ensures
            old(self)@.threads[t as int].slot == TlsState::Present(gl),
            final(self)@ == old(self)@.begun_use(t as int, blame),
            final(self)@.wf(),
    {
        proof {
            lemma_use_keeps_wf(self@, t as int, TlsState::InUse { blame });
        }
        let gl = self.threads[t].slot.begin_use(blame);
        proof {
            assert(self@.threads =~= old(self)@.begun_use(t as int, blame).threads);
        }
        gl
    }

    /// Whether `end_use` can be called for thread `t`.
    pub fn can_end_use(&self, t: usize) -> (ok: bool)
        ensures
            ok == self@.can_end_use(t as int),
    {
        t < self.threads.len() && self.threads[t].slot.in_use_by().is_some()
    }

    /// The call that worked on the graphics context of thread `t` hands it
    /// back.
    pub fn end_use(&mut self, t: usize, gl: Box<crate::gl::Context>)
        requires
            old(self)@.wf(),
            old(self)@.can_end_use(t as int),
        ensures
            final(self)@ == old(self)@.ended_use(t as int, gl),
            final(self)@.wf(),
    {
        proof {
            lemma_use_keeps_wf(self@, t as int, TlsState::Present(gl));
        }
        self.threads[t].slot.end_use(gl);
        proof {
            assert(self@.threads =~= old(self)@.ended_use(t as int, gl).threads);
        }
    }

    /// Runs `f` on the graphics context of thread `t` in the name of the
    /// call `blame`, and installs what `f` hands back.
    pub fn with<R, F: FnOnce(Box<crate::gl::Context>) -> (Box<crate::gl::Context>, R)>(
        &mut self,
        t: usize,
        blame: &'static str,
        f: F,
    ) -> (r: R)
        requires
            old(self)@.wf(),
            old(self)@.can_begin_use(t as int),
            call_requires(f, (old(self)@.threads[t as int].slot->Present_0,)),
        ensures
            final(self)@.can_begin_use(t as int),
            call_ensures(
                f,
                (old(self)@.threads[t as int].slot->Present_0,),
                (final(self)@.threads[t as int].slot->Present_0, r),
            ),
            final(self)@ == old(self)@.ended_use(
                t as int,
                final(self)@.threads[t as int].slot->Present_0,
            ),
            final(self)@.wf(),
    {
        let gl = self.begin_use(t, blame);
        let (gl, r) = f(gl);
        self.end_use(t, gl);
        proof {
            assert(self@.threads =~= old(self)@.ended_use(t as int, gl).threads);
        }
        r
    }

    /// Whether `destroy` can be called for context `h`.
    pub fn can_destroy(&self, h: usize) -> (ok: bool)
        ensures
            ok == self@.can_destroy(h as int),
    {
        if h >= self.contexts.len() {
            return false;
        }
        match &self.contexts[h] {
            Some(context) => !context.released,
            None => false,
        }
    }

    /// The client destroys its handle of context `h`. An inactive context
    /// ceases to exist; a current one lives on until it is taken off its
    /// thread.
    pub fn destroy(&mut self, h: usize)
        requires
            old(self)@.wf(),
            old(self)@.can_destroy(h as int),
        ensures
            final(self)@ == old(self)@.destroyed(h as int),
            final(self)@.wf(),
    {
        proof {
            lemma_destroyed_wf(self@, h as int);
        }
        let mut taken: Option<Context> = None;
        std::mem::swap(&mut self.contexts[h], &mut taken);
        match taken {
            Some(Context { state: State::Current { read, draw }, released }) => {
                self.contexts[h] = Some(
                    Context { state: State::Current { read, draw }, released: true },
                );
            },
            _ => {},
        }
        proof {
            assert(self@.contexts =~= old(self)@.destroyed(h as int).contexts);
        }
    }
}

/// Taking the current context off a thread keeps the runtime's invariant.
pub proof fn lemma_removed_current_wf(runtime: RuntimeModel, t: int)
    requires
        runtime.wf(),
        runtime.can_remove_current(t),
    ensures
        runtime.removed_current(t).wf(),
{
    let after = runtime.removed_current(t);
    assert(runtime.thread_ok(runtime.threads[t]));
    assert forall|u: int| after.has_thread(u) implies after.thread_ok(
        #[trigger] after.threads[u],
    ) by {
        assert(runtime.thread_ok(runtime.threads[u]));
        if u != t && runtime.threads[t].current is Some {
            assert(runtime.threads[t].current != runtime.threads[u].current);
        }
    }
    assert forall|u: int, v: int|
        after.has_thread(u) && after.has_thread(v) && u != v && (
        #[trigger] after.threads[u]).current is Some implies after.threads[u].current != (
        #[trigger] after.threads[v]).current by {
        assert(runtime.threads[u].current is Some);
        if v != t {
            assert(runtime.threads[u].current != runtime.threads[v].current);
        }
    }
    assert forall|h: int| 0 <= h < after.contexts.len() implies match #[trigger] after.contexts[h] {
        Some(context) => context.released ==> context.state is Current,
        None => true,
    } by {
        let _ = runtime.contexts[h];
    }
    assert forall|k: int| #[trigger] after.bound(k) implies exists|u: int| after.holds(u, k) by {
        assert(runtime.bound(k));
        let u = choose|u: int| runtime.holds(u, k);
        assert(runtime.thread_ok(runtime.threads[u]));
        assert(u != t);
        assert(after.holds(u, k));
    }
}

/// Making a context current keeps the runtime's invariant, and afterwards
/// the thread holds the context.
pub proof fn lemma_made_current_wf(
    runtime: RuntimeModel,
    t: int,
    h: int,
    read: Surface,
    draw: Surface,
)
    requires
        runtime.wf(),
        runtime.can_make_current(t, h),
    ensures
        runtime.removed_current(t).alive(h),
        runtime.removed_current(t).contexts[h]->0.state is Inactive,
        !runtime.removed_current(t).contexts[h]->0.released,
        runtime.made_current(t, h, read, draw).wf(),
        runtime.made_current(t, h, read, draw).holds(t, h),
{
    let removed = runtime.removed_current(t);
    let after = runtime.made_current(t, h, read, draw);
    lemma_removed_current_wf(runtime, t);
    assert(runtime.thread_ok(runtime.threads[t]));
    if runtime.holds(t, h) {
        assert(runtime.threads[t].slot is Present);
        assert(removed.contexts[h]->0.state is Inactive);
    } else {
        assert(removed.contexts[h] == runtime.contexts[h]);
    }
    assert(removed.alive(h));
    assert(removed.contexts[h]->0.state is Inactive);
    assert(!removed.contexts[h]->0.released);
    assert(after.threads.len() == runtime.threads.len());
    assert(after.contexts.len() == runtime.contexts.len());
    assert forall|u: int| after.has_thread(u) implies after.thread_ok(
        #[trigger] after.threads[u],
    ) by {
        assert(removed.thread_ok(removed.threads[u]));
        if u != t {
            assert(after.threads[u] == removed.threads[u]);
        }
    }
    assert forall|u: int, v: int|
        after.has_thread(u) && after.has_thread(v) && u != v && (
        #[trigger] after.threads[u]).current is Some implies after.threads[u].current != (
        #[trigger] after.threads[v]).current by {
        assert(removed.thread_ok(removed.threads[u]));
        assert(removed.thread_ok(removed.threads[v]));
        if u != t && v != t {
            assert(after.threads[u] == removed.threads[u]);
            assert(after.threads[v] == removed.threads[v]);
            assert(removed.threads[u].current != removed.threads[v].current);
        }
    }
    assert forall|k: int| 0 <= k < after.contexts.len() implies match #[trigger] after.contexts[k] {
        Some(context) => context.released ==> context.state is Current,
        None => true,
    } by {
        let _ = removed.contexts[k];
    }
    assert forall|k: int| #[trigger] after.bound(k) implies exists|u: int| after.holds(u, k) by {
        if k == h {
            assert(after.holds(t, k));
        } else {
            assert(removed.bound(k));
            let u = choose|u: int| removed.holds(u, k);
            assert(removed.threads[t].current is None);
            assert(u != t);
            assert(after.holds(u, k));
        }
    }
}

/// Destroying a handle keeps the runtime's invariant.
pub proof fn lemma_destroyed_wf(runtime: RuntimeModel, h: int)
    requires
        runtime.wf(),
        runtime.can_destroy(h),
    ensures
        runtime.destroyed(h).wf(),
{
    let after = runtime.destroyed(h);
    assert forall|u: int| after.has_thread(u) implies after.thread_ok(
        #[trigger] after.threads[u],
    ) by {
        assert(runtime.thread_ok(runtime.threads[u]));
    }
    assert forall|k: int| 0 <= k < after.contexts.len() implies match #[trigger] after.contexts[k] {
        Some(context) => context.released ==> context.state is Current,
        None => true,
    } by {
        let _ = runtime.contexts[k];
    }
    assert forall|k: int| #[trigger] after.bound(k) implies exists|u: int| after.holds(u, k) by {
        assert(runtime.bound(k));
        let u = choose|u: int| runtime.holds(u, k);
        assert(after.holds(u, k));
    }
}

/// Replacing a graphics context that is installed on a thread by another
/// state in which one is installed keeps the runtime's invariant.
pub proof fn lemma_use_keeps_wf(runtime: RuntimeModel, t: int, slot: TlsState)
    requires
        runtime.wf(),
        runtime.has_thread(t),
        !(runtime.threads[t].slot is Empty),
        !(slot is Empty),
    ensures
        (RuntimeModel {
            threads: runtime.threads.update(
                t,
                Thread { slot, current: runtime.threads[t].current },
            ),
            ..runtime
        }).wf(),
{
    let after = RuntimeModel {
        threads: runtime.threads.update(t, Thread { slot, current: runtime.threads[t].current }),
        ..runtime
    };
    assert forall|u: int| after.has_thread(u) implies after.thread_ok(
        #[trigger] after.threads[u],
    ) by {
        assert(runtime.thread_ok(runtime.threads[u]));
    }
    assert forall|u: int, v: int|
        after.has_thread(u) && after.has_thread(v) && u != v && (
        #[trigger] after.threads[u]).current is Some implies after.threads[u].current != (
        #[trigger] after.threads[v]).current by {
        assert(runtime.threads[u].current != runtime.threads[v].current);
    }
    assert forall|k: int| #[trigger] after.bound(k) implies exists|u: int| after.holds(u, k) by {
        assert(runtime.bound(k));
        let u = choose|u: int| runtime.holds(u, k);
        assert(after.holds(u, k));
    }
}

/// A windowing context is current on one thread at most, so that one thread
/// at most holds its graphics context; and while a thread holds it, the
/// windowing context has none parked.
pub proof fn lemma_one_holder(runtime: RuntimeModel, t: int, u: int, h: int)
    requires
        runtime.wf(),
        runtime.holds(t, h),
    ensures
        runtime.holds(u, h) ==> u == t,
        runtime.alive(h),
        runtime.contexts[h]->0.state is Current,
        !(runtime.threads[t].slot is Empty),
{
    assert(runtime.thread_ok(runtime.threads[t]));
    if runtime.holds(u, h) && u != t {
        assert(runtime.threads[t].current != runtime.threads[u].current);
    }
}

/// The graphics context of a windowing context is in one place at any time:
/// parked in the windowing context, which is then current on no thread, or
/// held by the one thread on which the windowing context is current.
pub proof fn lemma_parked_or_held(runtime: RuntimeModel, h: int)
    requires
        runtime.wf(),
        runtime.alive(h),
    ensures
        runtime.contexts[h]->0.state is Inactive <==> forall|t: int| !runtime.holds(t, h),
        runtime.contexts[h]->0.state is Current <==> exists|t: int| runtime.holds(t, h),
{
    if runtime.bound(h) {
        let t = choose|t: int| runtime.holds(t, h);
        assert(runtime.holds(t, h));
    } else {
        assert forall|t: int| !runtime.holds(t, h) by {
            if runtime.holds(t, h) {
                lemma_one_holder(runtime, t, t, h);
            }
        }
    }
}

/// A windowing context that is current on one thread cannot be made current
/// on another.
pub proof fn lemma_current_elsewhere_rejected(runtime: RuntimeModel, t: int, u: int, h: int)
    requires
        runtime.wf(),
        runtime.holds(t, h),
        u != t,
    ensures
        !runtime.can_make_current(u, h),
{
    lemma_one_holder(runtime, t, u, h);
}

/// Making a context current on a thread and taking it off again leaves the
/// runtime as if only what was current before had been taken off: the
/// graphics context is parked in its windowing context again, the very one
/// with everything that was pending in it.
pub proof fn lemma_make_then_remove(
    runtime: RuntimeModel,
    t: int,
    h: int,
    read: Surface,
    draw: Surface,
)
    requires
        runtime.wf(),
        runtime.can_make_current(t, h),
    ensures
        runtime.made_current(t, h, read, draw).can_remove_current(t),
        runtime.made_current(t, h, read, draw).removed_current(t) == runtime.removed_current(t),
        runtime.threads[t].current is None ==> runtime.made_current(
            t,
            h,
            read,
            draw,
        ).removed_current(t) == runtime,
{
    let removed = runtime.removed_current(t);
    let made = runtime.made_current(t, h, read, draw);
    lemma_made_current_wf(runtime, t, h, read, draw);
    assert(runtime.thread_ok(runtime.threads[t]));
    assert(made.removed_current(t).threads =~= removed.threads);
    assert(made.removed_current(t).contexts =~= removed.contexts);
    if runtime.threads[t].current is None {
        assert(removed == runtime);
    }
}

/// While a call works on the graphics context of a thread, no second call
/// can begin on that thread, and the context can be neither taken off the
/// thread nor replaced. When the first call hands the context back, the
/// runtime is as it was before the call, and the next call can begin.
pub proof fn lemma_reentrancy_rejected(runtime: RuntimeModel, t: int, blame: &'static str, h: int)
    requires
        runtime.wf(),
        runtime.can_begin_use(t),
    ensures
        !runtime.begun_use(t, blame).can_begin_use(t),
        !runtime.begun_use(t, blame).can_remove_current(t),
        !runtime.begun_use(t, blame).can_make_current(t, h),
        runtime.begun_use(t, blame).can_end_use(t),
        runtime.begun_use(t, blame).ended_use(t, runtime.threads[t].slot->Present_0) == runtime,
{
    let during = runtime.begun_use(t, blame);
    let gl = runtime.threads[t].slot->Present_0;
    assert(during.ended_use(t, gl).threads =~= runtime.threads);
}

} // verus!
