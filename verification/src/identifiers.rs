//! No identifier is in use twice: every thread that waits in a queue holds
//! an identifier that was handed out, and no two of them hold the same.

use vstd::prelude::*;
use crate::queue::QueuedThread;

verus! {

/// Whether the identifiers in `queue` increase from head to tail: the
/// threads wait in the order in which they were queued.
pub open spec fn ids_increase<T, A>(queue: Seq<QueuedThread<T, A>>) -> bool {
    forall|i: int, j: int| 0 <= i < j < queue.len() ==> queue[i].id@ < queue[j].id@
}

/// Whether every identifier in `queue` is below `bound`.
pub open spec fn ids_below<T, A>(queue: Seq<QueuedThread<T, A>>, bound: int) -> bool {
    forall|i: int| 0 <= i < queue.len() ==> (#[trigger] queue[i]).id@ < bound
}

/// Whether no thread in `a` holds the identifier of a thread in `b`.
pub open spec fn ids_apart<T, A>(a: Seq<QueuedThread<T, A>>, b: Seq<QueuedThread<T, A>>) -> bool {
    forall|i: int, j: int|
        0 <= i < a.len() && 0 <= j < b.len() ==> (#[trigger] a[i]).id != (#[trigger] b[j]).id
}

/// Whether the threads of the two queues hold identifiers that were handed
/// out when `issued` identifiers had been, each only once, in queue order.
pub open spec fn ids_distinct<T, A>(
    spawned: Seq<QueuedThread<T, A>>,
    waiting: Seq<QueuedThread<T, A>>,
    issued: int,
) -> bool {
    &&& ids_increase(spawned)
    &&& ids_increase(waiting)
    &&& ids_below(spawned, issued)
    &&& ids_below(waiting, issued)
    &&& ids_apart(spawned, waiting)
}

/// Taking the head of either queue leaves the identifiers distinct.
pub proof fn lemma_pop_keeps_ids_distinct<T, A>(
    spawned: Seq<QueuedThread<T, A>>,
    waiting: Seq<QueuedThread<T, A>>,
    issued: int,
)
    requires
        ids_distinct(spawned, waiting, issued),
    ensures
        spawned.len() > 0 ==> ids_distinct(spawned.drop_first(), waiting, issued),
        waiting.len() > 0 ==> ids_distinct(spawned, waiting.drop_first(), issued),
{
    if spawned.len() > 0 {
        let rest = spawned.drop_first();
        assert forall|i: int| 0 <= i < rest.len() implies rest[i] == spawned[i + 1] by {}
        assert(ids_increase(rest));
        assert(ids_below(rest, issued));
        assert(ids_apart(rest, waiting)) by {
            assert forall|i: int, j: int|
                0 <= i < rest.len() && 0 <= j < waiting.len() implies (#[trigger] rest[i]).id != (
                #[trigger] waiting[j]).id by {
                assert(rest[i] == spawned[i + 1]);
            }
        }
    }
    if waiting.len() > 0 {
        let rest = waiting.drop_first();
        assert forall|i: int| 0 <= i < rest.len() implies rest[i] == waiting[i + 1] by {}
        assert(ids_increase(rest));
        assert(ids_below(rest, issued));
        assert(ids_apart(spawned, rest)) by {
            assert forall|i: int, j: int|
                0 <= i < spawned.len() && 0 <= j < rest.len() implies (#[trigger] spawned[i]).id
                != (#[trigger] rest[j]).id by {
                assert(rest[j] == waiting[j + 1]);
            }
        }
    }
}

/// Queueing a thread under the next identifier, at the tail of either
/// queue, leaves the identifiers distinct.
pub proof fn lemma_push_keeps_ids_distinct<T, A>(
    spawned: Seq<QueuedThread<T, A>>,
    waiting: Seq<QueuedThread<T, A>>,
    issued: int,
    thread: QueuedThread<T, A>,
)
    requires
        ids_distinct(spawned, waiting, issued),
        thread.id@ == issued,
    ensures
        ids_distinct(spawned.push(thread), waiting, issued + 1),
        ids_distinct(spawned, waiting.push(thread), issued + 1),
{
    let longer = spawned.push(thread);
    assert forall|i: int| 0 <= i < spawned.len() implies longer[i] == spawned[i] by {}
    assert(ids_below(longer, issued + 1)) by {
        assert forall|i: int| 0 <= i < longer.len() implies (#[trigger] longer[i]).id@ < issued
            + 1 by {
            if i < spawned.len() {
                assert(longer[i] == spawned[i]);
            }
        }
    }
    assert(ids_increase(longer)) by {
        assert forall|i: int, j: int| 0 <= i < j < longer.len() implies longer[i].id@
            < longer[j].id@ by {
            assert(longer[i] == spawned[i]);
            if j < spawned.len() {
                assert(longer[j] == spawned[j]);
            }
        }
    }
    assert(ids_apart(longer, waiting)) by {
        assert forall|i: int, j: int|
            0 <= i < longer.len() && 0 <= j < waiting.len() implies (#[trigger] longer[i]).id != (
            #[trigger] waiting[j]).id by {
            if i < spawned.len() {
                assert(longer[i] == spawned[i]);
            }
        }
    }
    assert(ids_below(waiting, issued + 1));
    let later = waiting.push(thread);
    assert forall|i: int| 0 <= i < waiting.len() implies later[i] == waiting[i] by {}
    assert(ids_below(later, issued + 1)) by {
        assert forall|i: int| 0 <= i < later.len() implies (#[trigger] later[i]).id@ < issued
            + 1 by {
            if i < waiting.len() {
                assert(later[i] == waiting[i]);
            }
        }
    }
    assert(ids_increase(later)) by {
        assert forall|i: int, j: int| 0 <= i < j < later.len() implies later[i].id@
            < later[j].id@ by {
            assert(later[i] == waiting[i]);
            if j < waiting.len() {
                assert(later[j] == waiting[j]);
            }
        }
    }
    assert(ids_apart(spawned, later)) by {
        assert forall|i: int, j: int|
            0 <= i < spawned.len() && 0 <= j < later.len() implies (#[trigger] spawned[i]).id != (
            #[trigger] later[j]).id by {
            if j < waiting.len() {
                assert(later[j] == waiting[j]);
            }
        }
    }
    assert(ids_below(spawned, issued + 1));
}

} // verus!
