//! The runtime: the two thread queues, the futures queue, the result map
//! and the exit cell, and the decision that the run-loop takes at each step.
//!
//! The runtime decides; its host acts. The host asks `next_action` what to
//! do, resumes the thread or polls the executor as it is told, reports a
//! finished thread with `complete_thread`, and asks again, until it is told
//! to finish.

use vstd::prelude::*;
use crate::exit::Exit;
use crate::exit::EXIT_SUCCESS;
use crate::identifiers::ids_distinct;
use crate::identifiers::lemma_pop_keeps_ids_distinct;
use crate::identifiers::lemma_push_keeps_ids_distinct;
use crate::outcome::Resumed;
use crate::queue::ConversionError;
use crate::queue::FuturesQueue;
use crate::queue::QueuedThread;
use crate::queue::ThreadQueue;
use crate::result_map::after_listen;
use crate::result_map::after_remove;
use crate::result_map::after_track;
use crate::result_map::after_write;
use crate::result_map::heard;
use crate::result_map::released;
use crate::result_map::taken;
use crate::result_map::Listen;
use crate::result_map::SlotView;
use crate::result_map::ThreadResultMap;
use crate::thread_id::ThreadId;
use crate::thread_id::ThreadIdSource;

verus! {

/// Where the run-loop stands.
#[derive(Clone, Copy, Debug, PartialEq, Eq, Structural)]
pub enum Phase {
    /// No step was taken yet.
    Idle,
    /// Steps are taken and no exit code is set.
    Running,
    /// An exit code was set while running: what was started may finish,
    /// nothing new is begun.
    Draining,
    /// The run-loop has returned.
    Stopped,
}

impl Phase {
    /// How far along the phase is: a run-loop only ever moves to a phase
    /// that is further along.
    pub open spec fn rank(self) -> int {
        match self {
            Phase::Idle => 0,
            Phase::Running => 1,
            Phase::Draining => 2,
            Phase::Stopped => 3,
        }
    }
}

/// Which queue the current tick draws from.
#[derive(Clone, Copy, Debug, PartialEq, Eq, Structural)]
pub enum Stage {
    /// The spawn queue, until it is empty.
    Spawn,
    /// The deferred threads that were waiting when the spawn queue ran
    /// empty.
    Defer,
}

/// What the host is to do next.
pub enum Action<T, A, F> {
    /// Resume this thread with its arguments.
    Resume(QueuedThread<T, A>),
    /// The tick is over: hand these futures to the executor and let it make
    /// progress. The host may wait for the executor only while no thread is
    /// queued: a thread that was queued during the tick runs at the next
    /// step.
    Poll(Vec<F>),
    /// Return from the run-loop with this exit code.
    Finish(u8),
}

/// The model of an action.
pub enum ActionView<T, A, F> {
    Resume(QueuedThread<T, A>),
    Poll(Seq<F>),
    Finish(u8),
}

impl<T, A, F> View for Action<T, A, F> {
    type V = ActionView<T, A, F>;

    open spec fn view(&self) -> ActionView<T, A, F> {
        match *self {
            Action::Resume(thread) => ActionView::Resume(thread),
            Action::Poll(futures) => ActionView::Poll(futures@),
            Action::Finish(code) => ActionView::Finish(code),
        }
    }
}

/// The model of the runtime's scheduling state.
pub struct RuntimeView<T, A, F> {
    pub phase: Phase,
    pub stage: Stage,
    pub exit: Option<u8>,
    /// The spawn queue, head first.
    pub spawned: Seq<QueuedThread<T, A>>,
    /// The defer queue, head first.
    pub deferred: Seq<QueuedThread<T, A>>,
    /// The deferred threads that the current tick has yet to run.
    pub batch: Seq<QueuedThread<T, A>>,
    /// The futures queue, head first.
    pub futures: Seq<F>,
}

impl<T, A, F> RuntimeView<T, A, F> {
    /// Deferred threads are set aside for a tick only while the tick draws
    /// from them, and the loop drains only once an exit code is set.
    pub open spec fn wf(self) -> bool {
        &&& self.stage == Stage::Spawn ==> self.batch.len() == 0
        &&& self.phase == Phase::Draining ==> self.exit.is_some()
    }

    /// Whether the threads that wait hold identifiers out of the first
    /// `issued`, each only once, in the order in which they were queued.
    pub open spec fn unique_ids(self, issued: int) -> bool {
        ids_distinct(self.spawned, self.batch + self.deferred, issued)
    }

    /// The number of threads that wait to be run, in either queue or set
    /// aside for the current tick.
    pub open spec fn queued_threads(self) -> nat {
        self.spawned.len() + self.batch.len() + self.deferred.len()
    }

    /// Whether nothing is left to do: every queue is empty and no work is
    /// outstanding on the executor.
    pub open spec fn at_rest(self, outstanding: bool) -> bool {
        &&& self.spawned.len() == 0
        &&& self.deferred.len() == 0
        &&& self.batch.len() == 0
        &&& self.futures.len() == 0
        &&& !outstanding
    }
}

/// The state with the deferred threads of the tick fixed: on leaving the
/// spawn queue, those waiting in the defer queue are set aside, and the defer
/// queue starts anew for the next tick.
pub open spec fn with_batch<T, A, F>(s: RuntimeView<T, A, F>) -> RuntimeView<T, A, F> {
    if s.stage == Stage::Spawn {
        RuntimeView { stage: Stage::Defer, batch: s.deferred, deferred: Seq::empty(), ..s }
    } else {
        s
    }
}

/// One step of the run-loop: the state after it and the action it hands out.
/// `outstanding` says whether the executor still holds unfinished work.
///
/// An exit code, once set, ends the loop before anything else is begun. Else
/// the spawn queue is drained, head first, until it is empty; then the
/// deferred threads that wait at that moment are run, head first, and no
/// others; then the tick ends: the loop finishes where nothing is left to
/// do, and else hands the queued futures to the executor and starts the next
/// tick.
pub open spec fn step<T, A, F>(s: RuntimeView<T, A, F>, outstanding: bool) -> (
    RuntimeView<T, A, F>,
    ActionView<T, A, F>,
) {
    if s.exit.is_some() {
        (RuntimeView { phase: Phase::Stopped, ..s }, ActionView::Finish(s.exit.unwrap()))
    } else if s.phase == Phase::Stopped {
        (s, ActionView::Finish(EXIT_SUCCESS))
    } else if s.stage == Stage::Spawn && s.spawned.len() > 0 {
        (
            RuntimeView { phase: Phase::Running, spawned: s.spawned.drop_first(), ..s },
            ActionView::Resume(s.spawned[0]),
        )
    } else {
        let t = with_batch(s);
        if t.batch.len() > 0 {
            (
                RuntimeView { phase: Phase::Running, batch: t.batch.drop_first(), ..t },
                ActionView::Resume(t.batch[0]),
            )
        } else if t.at_rest(outstanding) {
            (
                RuntimeView { phase: Phase::Stopped, stage: Stage::Spawn, ..t },
                ActionView::Finish(EXIT_SUCCESS),
            )
        } else {
            (
                RuntimeView {
                    phase: Phase::Running,
                    stage: Stage::Spawn,
                    futures: Seq::empty(),
                    ..t
                },
                ActionView::Poll(t.futures),
            )
        }
    }
}

/// The scheduler of one session.
pub struct Runtime<T, A, F, R> {
    ids: ThreadIdSource,
    spawned: ThreadQueue<T, A>,
    deferred: ThreadQueue<T, A>,
    batch: Vec<QueuedThread<T, A>>,
    futures: FuturesQueue<F>,
    results: ThreadResultMap<R>,
    exit: Exit,
    phase: Phase,
    stage: Stage,
}

impl<T, A, F, R> View for Runtime<T, A, F, R> {
    type V = RuntimeView<T, A, F>;

    closed spec fn view(&self) -> RuntimeView<T, A, F> {
        RuntimeView {
            phase: self.phase,
            stage: self.stage,
            exit: self.exit@,
            spawned: self.spawned@,
            deferred: self.deferred@,
            batch: self.batch@,
            futures: self.futures@,
        }
    }
}

impl<T, A, F, R> Runtime<T, A, F, R> {
    /// The result map's model.
    pub closed spec fn results(&self) -> Map<u64, SlotView<R>> {
        self.results@
    }

    /// The number of identifiers handed out so far.
    pub closed spec fn issued(&self) -> u64 {
        self.ids.issued()
    }

    /// Whether the threads that wait hold identifiers that this runtime
    /// handed out, each only once.
    pub open spec fn unique_ids(&self) -> bool {
        self@.unique_ids(self.issued() as int)
    }

    /// A runtime that has not started: empty queues, nothing tracked, no
    /// exit code, no identifier handed out.
    pub fn new() -> (runtime: Self)
        ensures
            runtime@ == (RuntimeView::<T, A, F> {
                phase: Phase::Idle,
                stage: Stage::Spawn,
                exit: None,
                spawned: Seq::empty(),
                deferred: Seq::empty(),
                batch: Seq::empty(),
                futures: Seq::empty(),
            }),
            runtime@.wf(),
            runtime.unique_ids(),
            runtime.results() == Map::<u64, SlotView<R>>::empty(),
            runtime.issued() == 0,
    {
        Runtime {
            ids: ThreadIdSource::new(),
            spawned: ThreadQueue::new(),
            deferred: ThreadQueue::new(),
            batch: Vec::new(),
            futures: FuturesQueue::new(),
            results: ThreadResultMap::new(),
            exit: Exit::new(),
            phase: Phase::Idle,
            stage: Stage::Spawn,
        }
    }

    /// Queues a runnable thread at the tail of the spawn queue, to run as
    /// soon as possible, and returns its fresh identifier.
    pub fn push_thread_front(&mut self, thread: T, args: A) -> (id: ThreadId)
        requires
            old(self).issued() < u64::MAX,
        ensures
            id@ == old(self).issued(),
            final(self).issued() == old(self).issued() + 1,
            final(self)@ == (RuntimeView {
                spawned: old(self)@.spawned.push((QueuedThread { id, thread, args })),
                ..old(self)@
            }),
            final(self).results() == old(self).results(),
            old(self).unique_ids() ==> final(self).unique_ids(),
    {
        let id = self.spawned.push_item(&mut self.ids, thread, args);
        proof {
            if old(self).unique_ids() {
                lemma_push_keeps_ids_distinct(
                    old(self)@.spawned,
                    old(self)@.batch + old(self)@.deferred,
                    old(self).issued() as int,
                    self@.spawned.last(),
                );
            }
        }
        id
    }

    /// Queues a runnable thread at the tail of the defer queue, to run after
    /// the spawn queue has run empty, and returns its fresh identifier.
    pub fn push_thread_back(&mut self, thread: T, args: A) -> (id: ThreadId)
        requires
            old(self).issued() < u64::MAX,
        ensures
            id@ == old(self).issued(),
            final(self).issued() == old(self).issued() + 1,
            final(self)@ == (RuntimeView {
                deferred: old(self)@.deferred.push((QueuedThread { id, thread, args })),
                ..old(self)@
            }),
            final(self).results() == old(self).results(),
            old(self).unique_ids() ==> final(self).unique_ids(),
    {
        let id = self.deferred.push_item(&mut self.ids, thread, args);
        proof {
            if old(self).unique_ids() {
                lemma_push_keeps_ids_distinct(
                    old(self)@.spawned,
                    old(self)@.batch + old(self)@.deferred,
                    old(self).issued() as int,
                    self@.deferred.last(),
                );
                assert(self@.batch + self@.deferred =~= (old(self)@.batch + old(
                    self,
                )@.deferred).push(self@.deferred.last()));
            }
        }
        id
    }

    /// Queues what a conversion into a thread produced on the spawn queue.
    /// A thread is queued as `push_thread_front` does. A failed conversion
    /// comes back as the error and leaves the runtime as it was.
    pub fn spawn_thread<E>(&mut self, converted: Result<T, E>, args: A) -> (spawned: Result<
        ThreadId,
        ConversionError<E>,
    >)
        requires
            converted is Ok ==> old(self).issued() < u64::MAX,
        ensures
            final(self).results() == old(self).results(),
            old(self).unique_ids() ==> final(self).unique_ids(),
            match converted {
                Ok(thread) => {
                    let id = ThreadId { index: old(self).issued() };
                    &&& spawned == Ok::<ThreadId, ConversionError<E>>(id)
                    &&& final(self).issued() == old(self).issued() + 1
                    &&& final(self)@ == (RuntimeView {
                        spawned: old(self)@.spawned.push((QueuedThread { id, thread, args })),
                        ..old(self)@
                    })
                },
                Err(cause) => {
                    &&& spawned == Err::<ThreadId, ConversionError<E>>((ConversionError { cause }))
                    &&& final(self).issued() == old(self).issued()
                    &&& final(self)@ == old(self)@
                },
            },
    {
        let spawned = self.spawned.push_converted(&mut self.ids, converted, args);
        proof {
            if spawned is Ok && old(self).unique_ids() {
                lemma_push_keeps_ids_distinct(
                    old(self)@.spawned,
                    old(self)@.batch + old(self)@.deferred,
                    old(self).issued() as int,
                    self@.spawned.last(),
                );
            }
        }
        spawned
    }

    /// Queues what a conversion into a thread produced on the defer queue.
    /// A thread is queued as `push_thread_back` does. A failed conversion
    /// comes back as the error and leaves the runtime as it was.
    pub fn defer_thread<E>(&mut self, converted: Result<T, E>, args: A) -> (deferred: Result<
        ThreadId,
        ConversionError<E>,
    >)
        requires
            converted is Ok ==> old(self).issued() < u64::MAX,
        ensures
            final(self).results() == old(self).results(),
            old(self).unique_ids() ==> final(self).unique_ids(),
            match converted {
                Ok(thread) => {
                    let id = ThreadId { index: old(self).issued() };
                    &&& deferred == Ok::<ThreadId, ConversionError<E>>(id)
                    &&& final(self).issued() == old(self).issued() + 1
                    &&& final(self)@ == (RuntimeView {
                        deferred: old(self)@.deferred.push((QueuedThread { id, thread, args })),
                        ..old(self)@
                    })
                },
                Err(cause) => {
                    &&& deferred == Err::<ThreadId, ConversionError<E>>((ConversionError { cause }))
                    &&& final(self).issued() == old(self).issued()
                    &&& final(self)@ == old(self)@
                },
            },
    {
        let deferred = self.deferred.push_converted(&mut self.ids, converted, args);
        proof {
            if deferred is Ok && old(self).unique_ids() {
                lemma_push_keeps_ids_distinct(
                    old(self)@.spawned,
                    old(self)@.batch + old(self)@.deferred,
                    old(self).issued() as int,
                    self@.deferred.last(),
                );
                assert(self@.batch + self@.deferred =~= (old(self)@.batch + old(
                    self,
                )@.deferred).push(self@.deferred.last()));
            }
        }
        deferred
    }

    /// Queues a future that must run on the context of the scheduler. The
    /// run-loop does not finish while it waits here.
    pub fn spawn_local(&mut self, fut: F)
        ensures
            final(self)@ == (RuntimeView { futures: old(self)@.futures.push(fut), ..old(self)@ }),
            final(self).results() == old(self).results(),
            final(self).issued() == old(self).issued(),
    {
        self.futures.push_item(fut);
    }

    /// Sets the exit code, replacing one set before. A running loop begins
    /// to drain: its next step begins nothing and finishes with this code.
    pub fn set_exit_code(&mut self, code: u8)
        ensures
            final(self)@ == (RuntimeView {
                exit: Some(code),
                phase: if old(self)@.phase == Phase::Running {
                    Phase::Draining
                } else {
                    old(self)@.phase
                },
                ..old(self)@
            }),
            old(self)@.wf() ==> final(self)@.wf(),
            final(self).results() == old(self).results(),
            final(self).issued() == old(self).issued(),
    {
        self.exit.set(code);
        match self.phase {
            Phase::Running => {
                self.phase = Phase::Draining;
            },
            _ => {},
        }
    }

    /// Marks `id` as tracked, so that its result is kept when it finishes.
    pub fn track_thread(&mut self, id: ThreadId)
        ensures
            final(self).results() == after_track(old(self).results(), id),
            final(self)@ == old(self)@,
            final(self).issued() == old(self).issued(),
    {
        self.results.track(id);
    }

    /// Records that the thread `id` has finished with `result`, and returns
    /// the waiters to wake. The result of a thread that is not tracked is
    /// dropped.
    pub fn complete_thread(&mut self, id: ThreadId, result: R) -> (woken: Vec<u64>)
        ensures
            final(self).results() == after_write(old(self).results(), id, result),
            woken@ == released(old(self).results(), id),
            final(self)@ == old(self)@,
            final(self).issued() == old(self).issued(),
    {
        self.results.insert(id, result)
    }

    /// Takes the result of `id`, if it is there, and stops tracking it.
    pub fn get_thread_result(&mut self, id: ThreadId) -> (result: Option<R>)
        ensures
            result == taken(old(self).results(), id),
            final(self).results() == after_remove(old(self).results(), id),
            final(self)@ == old(self)@,
            final(self).issued() == old(self).issued(),
    {
        self.results.remove(id)
    }

    /// Asks for the result of `id` on behalf of `waiter`: says whether it
    /// is there, and records the waiter where it is yet to come.
    pub fn wait_for_thread(&mut self, id: ThreadId, waiter: u64) -> (found: Listen)
        ensures
            found == heard(old(self).results(), id),
            final(self).results() == after_listen(old(self).results(), id, waiter),
            final(self)@ == old(self)@,
            final(self).issued() == old(self).issued(),
    {
        self.results.listen(id, waiter)
    }

    /// Where the run-loop stands.
    pub fn phase(&self) -> (phase: Phase)
        ensures
            phase == self@.phase,
    {
        self.phase
    }

    /// The exit code, if one has been set.
    pub fn exit_code(&self) -> (code: Option<u8>)
        ensures
            code == self@.exit,
    {
        self.exit.get()
    }

    /// Whether a thread waits to be run. After a `Poll` the host may wait
    /// for the executor only where none does: else the next step has a
    /// thread to resume, whatever the executor holds.
    pub fn has_queued_threads(&self) -> (queued: bool)
        ensures
            queued == (self@.queued_threads() > 0),
    {
        !self.spawned.is_empty() || self.batch.len() > 0 || !self.deferred.is_empty()
    }

    /// The number of identifiers handed out so far.
    pub fn issued_ids(&self) -> (n: u64)
        ensures
            n == self.issued(),
    {
        self.ids.count()
    }

    /// Takes one step of the run-loop and returns what the host is to do.
    /// `outstanding` says whether the executor still holds unfinished work.
    pub fn next_action(&mut self, outstanding: bool) -> (action: Action<T, A, F>)
        ensures
            final(self)@ == step(old(self)@, outstanding).0,
            action@ == step(old(self)@, outstanding).1,
            old(self)@.wf() ==> final(self)@.wf(),
            old(self)@.wf() && old(self).unique_ids() ==> final(self).unique_ids(),
            final(self).results() == old(self).results(),
            final(self).issued() == old(self).issued(),
    {
        proof {
            if old(self)@.wf() && old(self).unique_ids() {
                lemma_step_keeps_unique_ids(old(self)@, outstanding, old(self).issued() as int);
            }
        }
        match self.exit.get() {
            Some(code) => {
                self.phase = Phase::Stopped;
                return Action::Finish(code);
            },
            None => {},
        }
        match self.phase {
            Phase::Stopped => {
                return Action::Finish(EXIT_SUCCESS);
            },
            _ => {},
        }
        match self.stage {
            Stage::Spawn => {
                match self.spawned.pop_front() {
                    Some(thread) => {
                        self.phase = Phase::Running;
                        return Action::Resume(thread);
                    },
                    None => {},
                }
                self.batch = self.deferred.drain_items();
                self.stage = Stage::Defer;
            },
            Stage::Defer => {},
        }
        assert(self@ == with_batch(old(self)@));
        if self.batch.len() > 0 {
            let thread = self.batch.remove(0);
            assert(self.batch@ =~= with_batch(old(self)@).batch.drop_first());
            self.phase = Phase::Running;
            return Action::Resume(thread);
        }
        self.stage = Stage::Spawn;
        if self.spawned.is_empty() && self.deferred.is_empty() && self.futures.is_empty()
            && !outstanding {
            self.phase = Phase::Stopped;
            return Action::Finish(EXIT_SUCCESS);
        }
        self.phase = Phase::Running;
        let futures = self.futures.drain_items();
        Action::Poll(futures)
    }
}

impl<T, A, F, V, E> Runtime<T, A, F, Result<V, E>> {
    /// Records how the thread `id` gave control back, and returns the
    /// waiters to wake. A thread that has ended, with values or with an
    /// error, leaves that as its result, as `complete_thread` writes it. A
    /// thread that only suspended leaves nothing, and is not queued again.
    pub fn thread_resumed(&mut self, id: ThreadId, outcome: Resumed<V, E>) -> (woken: Vec<u64>)
        ensures
            final(self)@ == old(self)@,
            final(self).issued() == old(self).issued(),
            match outcome.final_result() {
                Some(result) => {
                    &&& final(self).results() == after_write(old(self).results(), id, result)
                    &&& woken@ == released(old(self).results(), id)
                },
                None => {
                    &&& final(self).results() == old(self).results()
                    &&& woken@ == Seq::<u64>::empty()
                },
            },
    {
        match outcome.into_result() {
            Some(result) => self.complete_thread(id, result),
            None => Vec::new(),
        }
    }
}

/// A step keeps the state well formed.
pub proof fn lemma_step_keeps_wf<T, A, F>(s: RuntimeView<T, A, F>, outstanding: bool)
    requires
        s.wf(),
    ensures
        step(s, outstanding).0.wf(),
{
}

/// A step hands out no identifier twice: the threads that still wait hold
/// distinct identifiers, as they did before.
pub proof fn lemma_step_keeps_unique_ids<T, A, F>(
    s: RuntimeView<T, A, F>,
    outstanding: bool,
    issued: int,
)
    requires
        s.wf(),
        s.unique_ids(issued),
    ensures
        step(s, outstanding).0.unique_ids(issued),
{
    let waiting = s.batch + s.deferred;
    lemma_pop_keeps_ids_distinct(s.spawned, waiting, issued);
    let t = with_batch(s);
    assert(t.batch + t.deferred =~= waiting);
    if t.batch.len() > 0 {
        assert(t.batch.drop_first() + t.deferred =~= waiting.drop_first());
    }
}

/// While the spawn queue holds a thread, the tick runs no deferred thread:
/// the step resumes the head of the spawn queue, and leaves the defer queue
/// and the threads set aside from it as they are. A thread that joins the
/// spawn queue meanwhile waits behind those before it in the same queue, so
/// the same holds of it at the steps that follow.
pub proof fn lemma_spawned_run_before_deferred<T, A, F>(s: RuntimeView<T, A, F>, outstanding: bool)
    requires
        s.wf(),
        s.exit.is_none(),
        s.phase != Phase::Stopped,
        s.stage == Stage::Spawn,
        s.spawned.len() > 0,
    ensures
        step(s, outstanding).1 == ActionView::<T, A, F>::Resume(s.spawned[0]),
        step(s, outstanding).0.spawned == s.spawned.drop_first(),
        step(s, outstanding).0.deferred == s.deferred,
        step(s, outstanding).0.batch == s.batch,
        step(s, outstanding).0.stage == Stage::Spawn,
{
}

/// A tick turns to its deferred threads only when the spawn queue is empty,
/// and then takes exactly those that wait in the defer queue at that moment,
/// head first: what is deferred later waits for the next tick.
pub proof fn lemma_deferred_run_after_spawn_queue_is_empty<T, A, F>(
    s: RuntimeView<T, A, F>,
    outstanding: bool,
)
    requires
        s.wf(),
        s.stage == Stage::Spawn,
        step(s, outstanding).0.stage == Stage::Defer,
    ensures
        s.spawned.len() == 0,
        s.deferred.len() > 0,
        step(s, outstanding).1 == ActionView::<T, A, F>::Resume(s.deferred[0]),
        step(s, outstanding).0.batch == s.deferred.drop_first(),
        step(s, outstanding).0.deferred == Seq::<QueuedThread<T, A>>::empty(),
{
}

/// The deferred threads of a tick run once, head first, whatever is queued
/// meanwhile: while some are set aside, the step resumes the first of them
/// and touches neither the spawn queue nor the defer queue, so that what is
/// spawned or deferred during the drain waits for the next tick. When none is
/// left, the tick ends and the next one starts at the spawn queue.
pub proof fn lemma_deferred_batch_runs_once<T, A, F>(s: RuntimeView<T, A, F>, outstanding: bool)
    requires
        s.wf(),
        s.exit.is_none(),
        s.phase != Phase::Stopped,
        s.stage == Stage::Defer,
    ensures
        step(s, outstanding).0.spawned == s.spawned,
        step(s, outstanding).0.deferred == s.deferred,
        s.batch.len() > 0 ==> {
            &&& step(s, outstanding).1 == ActionView::<T, A, F>::Resume(s.batch[0])
            &&& step(s, outstanding).0.batch == s.batch.drop_first()
            &&& step(s, outstanding).0.stage == Stage::Defer
        },
        s.batch.len() == 0 ==> {
            &&& !(step(s, outstanding).1 is Resume)
            &&& step(s, outstanding).0.stage == Stage::Spawn
        },
{
}

/// A queued thread does not wait for the executor: at the start of a tick,
/// with a thread in either queue and no exit code set, the step resumes a
/// thread. A `Poll` ends a tick and leaves the loop at the start of the next,
/// so the step after a `Poll` runs a thread wherever one is queued.
pub proof fn lemma_queued_thread_runs_at_next_tick<T, A, F>(
    s: RuntimeView<T, A, F>,
    outstanding: bool,
    again: bool,
)
    requires
        s.wf(),
    ensures
        s.exit.is_none() && s.phase != Phase::Stopped && s.stage == Stage::Spawn
            && s.queued_threads() > 0 ==> step(s, outstanding).1 is Resume,
        step(s, outstanding).1 is Poll ==> {
            let t = step(s, outstanding).0;
            &&& t.stage == Stage::Spawn
            &&& t.exit.is_none()
            &&& t.phase == Phase::Running
            &&& t.queued_threads() == s.queued_threads()
            &&& t.queued_threads() > 0 ==> step(t, again).1 is Resume
        },
{
}

/// The run-loop ends where nothing is left to do: with every queue empty, no
/// work outstanding and no exit code set, the step finishes with success,
/// whether or not any thread was ever queued.
pub proof fn lemma_run_ends_at_rest<T, A, F>(s: RuntimeView<T, A, F>)
    requires
        s.exit.is_none(),
        s.at_rest(false),
    ensures
        step(s, false).1 == ActionView::<T, A, F>::Finish(EXIT_SUCCESS),
        step(s, false).0.phase == Phase::Stopped,
{
}

/// Once an exit code is set, no thread is begun: the step finishes with
/// that code and leaves every queue as it is. A loop that has stopped stays
/// stopped.
pub proof fn lemma_exit_begins_nothing<T, A, F>(s: RuntimeView<T, A, F>, outstanding: bool)
    requires
        s.exit.is_some() || s.phase == Phase::Stopped,
    ensures
        step(s, outstanding).0.phase == Phase::Stopped,
        step(s, outstanding).1 == ActionView::<T, A, F>::Finish(
            if s.exit.is_some() {
                s.exit.unwrap()
            } else {
                EXIT_SUCCESS
            },
        ),
        step(s, outstanding).0.spawned == s.spawned,
        step(s, outstanding).0.deferred == s.deferred,
        step(s, outstanding).0.batch == s.batch,
        step(s, outstanding).0.futures == s.futures,
{
}

} // verus!
