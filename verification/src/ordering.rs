//! What holds of whole histories of the runtime: whatever is spawned and
//! deferred while the spawn queue is drained, every spawned thread runs
//! before the first deferred one; the run-loop only moves forward through its
//! phases; and left alone it stops.

use vstd::prelude::*;
use crate::queue::QueuedThread;
use crate::runtime::step;
use crate::runtime::ActionView;
use crate::runtime::Phase;
use crate::runtime::RuntimeView;
use crate::runtime::Stage;

verus! {

/// What can happen to the scheduling state.
pub enum Event<T, A> {
    /// A thread joins the spawn queue.
    Spawned(QueuedThread<T, A>),
    /// A thread joins the defer queue.
    Deferred(QueuedThread<T, A>),
    /// An exit code is set.
    ExitSet(u8),
    /// The run-loop takes a step; the flag says whether the executor holds
    /// unfinished work.
    Step(bool),
}

/// The state after one event.
pub open spec fn after_event<T, A, F>(s: RuntimeView<T, A, F>, event: Event<T, A>) -> RuntimeView<
    T,
    A,
    F,
> {
    match event {
        Event::Spawned(thread) => RuntimeView { spawned: s.spawned.push(thread), ..s },
        Event::Deferred(thread) => RuntimeView { deferred: s.deferred.push(thread), ..s },
        Event::ExitSet(code) => RuntimeView {
            exit: Some(code),
            phase: if s.phase == Phase::Running {
                Phase::Draining
            } else {
                s.phase
            },
            ..s
        },
        Event::Step(outstanding) => step(s, outstanding).0,
    }
}

/// The thread that one event resumes, if it resumes one.
pub open spec fn resumed_by<T, A, F>(s: RuntimeView<T, A, F>, event: Event<T, A>) -> Seq<
    QueuedThread<T, A>,
> {
    match event {
        Event::Step(outstanding) => match step(s, outstanding).1 {
            ActionView::Resume(thread) => seq![thread],
            _ => Seq::empty(),
        },
        _ => Seq::empty(),
    }
}

/// The thread that one event adds to the spawn queue, if it adds one.
pub open spec fn spawned_by<T, A>(event: Event<T, A>) -> Seq<QueuedThread<T, A>> {
    match event {
        Event::Spawned(thread) => seq![thread],
        _ => Seq::empty(),
    }
}

/// The state after a history of events.
pub open spec fn after_events<T, A, F>(s: RuntimeView<T, A, F>, events: Seq<Event<T, A>>) -> RuntimeView<
    T,
    A,
    F,
>
    decreases events.len(),
{
    if events.len() == 0 {
        s
    } else {
        after_event(after_events(s, events.drop_last()), events.last())
    }
}

/// The threads that a history resumes, in the order in which they run.
pub open spec fn resumed_during<T, A, F>(s: RuntimeView<T, A, F>, events: Seq<Event<T, A>>) -> Seq<
    QueuedThread<T, A>,
>
    decreases events.len(),
{
    if events.len() == 0 {
        Seq::empty()
    } else {
        resumed_during(s, events.drop_last()) + resumed_by(
            after_events(s, events.drop_last()),
            events.last(),
        )
    }
}

/// The threads that a history adds to the spawn queue, in the order in
/// which they join it.
pub open spec fn spawned_during<T, A>(events: Seq<Event<T, A>>) -> Seq<QueuedThread<T, A>>
    decreases events.len(),
{
    if events.len() == 0 {
        Seq::empty()
    } else {
        spawned_during(events.drop_last()) + spawned_by(events.last())
    }
}

/// Whether the tick draws from the spawn queue at the start of a history
/// and after each of its events: no deferred thread has run.
pub open spec fn in_spawn_stage<T, A, F>(s: RuntimeView<T, A, F>, events: Seq<Event<T, A>>) -> bool
    decreases events.len(),
{
    if events.len() == 0 {
        s.stage == Stage::Spawn
    } else {
        in_spawn_stage(s, events.drop_last()) && after_events(s, events).stage == Stage::Spawn
    }
}

/// Every event keeps the state well formed.
pub proof fn lemma_events_keep_wf<T, A, F>(s: RuntimeView<T, A, F>, events: Seq<Event<T, A>>)
    requires
        s.wf(),
    ensures
        after_events(s, events).wf(),
    decreases events.len(),
{
    if events.len() > 0 {
        lemma_events_keep_wf(s, events.drop_last());
    }
}

/// The run-loop only moves forward: from idle to running, from running to
/// draining when an exit code is set, and to stopped; no event takes it back
/// to an earlier phase, and nothing takes it out of stopped.
pub proof fn lemma_phase_only_advances<T, A, F>(s: RuntimeView<T, A, F>, events: Seq<Event<T, A>>)
    requires
        s.wf(),
    ensures
        s.phase.rank() <= after_events(s, events).phase.rank(),
        s.phase == Phase::Stopped ==> after_events(s, events).phase == Phase::Stopped,
        s.exit.is_some() ==> after_events(s, events).exit.is_some(),
    decreases events.len(),
{
    if events.len() > 0 {
        lemma_phase_only_advances(s, events.drop_last());
        lemma_events_keep_wf(s, events.drop_last());
    }
}

/// The state after `count` steps in a row, with nothing outstanding on the
/// executor and nothing queued in between.
pub open spec fn after_steps<T, A, F>(s: RuntimeView<T, A, F>, count: nat) -> RuntimeView<T, A, F>
    decreases count,
{
    if count == 0 {
        s
    } else {
        after_steps(step(s, false).0, (count - 1) as nat)
    }
}

/// A number of steps within which the run-loop stops when it is left alone:
/// two for each thread that waits, and two more to hand over the futures and
/// to find everything at rest.
pub open spec fn steps_to_stop<T, A, F>(s: RuntimeView<T, A, F>) -> nat {
    if s.phase == Phase::Stopped {
        0
    } else {
        let threads = s.spawned.len() + s.deferred.len() + s.batch.len();
        let pending: nat = if s.stage == Stage::Defer || s.futures.len() > 0 {
            1
        } else {
            0
        };
        1 + 2 * threads + pending
    }
}

/// The run-loop does not hang: left alone, with no work outstanding on the
/// executor and no thread queued from outside, it stops after a number of
/// steps bounded by the threads that wait, and stays stopped. With nothing
/// queued at all, the first step stops it.
pub proof fn lemma_run_stops<T, A, F>(s: RuntimeView<T, A, F>, count: nat)
    requires
        s.wf(),
        count >= steps_to_stop(s),
    ensures
        after_steps(s, count).phase == Phase::Stopped,
    decreases count,
{
    if count > 0 {
        let next = step(s, false).0;
        assert(s.phase != Phase::Stopped ==> steps_to_stop(next) < steps_to_stop(s));
        lemma_run_stops(next, (count - 1) as nat);
    }
}

/// A history throughout which the tick draws from the spawn queue ends with
/// the tick drawing from the spawn queue.
pub proof fn lemma_spawn_stage_holds_at_end<T, A, F>(
    s: RuntimeView<T, A, F>,
    events: Seq<Event<T, A>>,
)
    requires
        in_spawn_stage(s, events),
    ensures
        after_events(s, events).stage == Stage::Spawn,
{
}

/// While a tick draws from the spawn queue, no spawned thread is lost or
/// overtaken: the threads that were in the spawn queue at the start,
/// followed by those that joined it since, are the threads that have run,
/// in the order in which they ran, followed by those still in the queue.
pub proof fn lemma_spawn_queue_runs_in_order<T, A, F>(
    s: RuntimeView<T, A, F>,
    events: Seq<Event<T, A>>,
)
    requires
        s.wf(),
        in_spawn_stage(s, events),
    ensures
        s.spawned + spawned_during(events) == resumed_during(s, events) + after_events(
            s,
            events,
        ).spawned,
    decreases events.len(),
{
    if events.len() == 0 {
        assert(s.spawned + spawned_during(events) =~= resumed_during(s, events) + s.spawned);
    } else {
        let earlier = events.drop_last();
        let before = after_events(s, earlier);
        lemma_spawn_queue_runs_in_order(s, earlier);
        lemma_events_keep_wf(s, earlier);
        lemma_spawn_stage_holds_at_end(s, earlier);
        let ran = resumed_during(s, earlier);
        let joined = spawned_during(earlier);
        assert(s.spawned + joined == ran + before.spawned);
        match events.last() {
            Event::Spawned(thread) => {
                assert(s.spawned + (joined + seq![thread]) =~= (s.spawned + joined).push(thread));
                assert((ran + Seq::empty()) + before.spawned.push(thread) =~= (ran
                    + before.spawned).push(thread));
            },
            Event::Step(outstanding) => {
                assert(joined + Seq::<QueuedThread<T, A>>::empty() =~= joined);
                if step(before, outstanding).1 is Resume {
                    assert(before.spawned.len() > 0);
                    assert((ran + seq![before.spawned[0]]) + before.spawned.drop_first() =~= ran
                        + before.spawned);
                } else {
                    assert(ran + Seq::<QueuedThread<T, A>>::empty() =~= ran);
                }
            },
            _ => {
                assert(joined + Seq::<QueuedThread<T, A>>::empty() =~= joined);
                assert(ran + Seq::<QueuedThread<T, A>>::empty() =~= ran);
            },
        }
    }
}

/// Every spawned thread runs before any deferred thread of the same tick.
/// When, after a history in which the tick drew from the spawn queue, a step
/// turns to the deferred threads, the spawn queue is empty, and every thread
/// that was in it at the start or joined it since, also one that a spawned
/// thread itself spawned, has run, first come first run. The step then
/// resumes the head of the defer queue.
pub proof fn lemma_spawned_threads_run_before_deferred<T, A, F>(
    s: RuntimeView<T, A, F>,
    events: Seq<Event<T, A>>,
    outstanding: bool,
)
    requires
        s.wf(),
        in_spawn_stage(s, events),
        step(after_events(s, events), outstanding).0.stage == Stage::Defer,
    ensures
        after_events(s, events).spawned.len() == 0,
        resumed_during(s, events) == s.spawned + spawned_during(events),
        after_events(s, events).deferred.len() > 0,
        step(after_events(s, events), outstanding).1 == ActionView::<T, A, F>::Resume(
            after_events(s, events).deferred[0],
        ),
{
    lemma_spawn_queue_runs_in_order(s, events);
    lemma_events_keep_wf(s, events);
    let now = after_events(s, events);
    lemma_spawn_stage_holds_at_end(s, events);
    assert(resumed_during(s, events) + now.spawned =~= resumed_during(s, events));
}

} // verus!
