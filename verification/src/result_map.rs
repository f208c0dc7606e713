//! The result map: which threads are tracked, what each of them returned,
//! and who waits for it.

use std::collections::HashMap;
use vstd::prelude::*;
use crate::thread_id::ThreadId;

verus! {

broadcast use vstd::std_specs::hash::group_hash_axioms;

/// What the map holds for a tracked thread.
struct Slot<R> {
    result: Option<R>,
    waiters: Vec<u64>,
}

/// The model of a slot: the result, once written, and the waiters that
/// listen for it, in the order in which they came.
pub struct SlotView<R> {
    pub result: Option<R>,
    pub waiters: Seq<u64>,
}

/// What a call of `listen` found.
#[derive(Clone, Copy, Debug, PartialEq, Eq, Structural)]
pub enum Listen {
    /// The result is there: the listener goes on at once.
    Resolved,
    /// The thread is tracked and has no result yet: the listener was
    /// recorded and is released when the result is written.
    Waiting,
    /// The thread is not tracked: there is nothing to wait for.
    Untracked,
}

/// The slot of a thread that was tracked and nothing more.
pub open spec fn pending_slot<R>() -> SlotView<R> {
    SlotView { result: None, waiters: Seq::empty() }
}

/// The map after `track`.
pub open spec fn after_track<R>(m: Map<u64, SlotView<R>>, id: ThreadId) -> Map<u64, SlotView<R>> {
    if m.contains_key(id@) {
        m
    } else {
        m.insert(id@, pending_slot())
    }
}

/// The map after a result is written.
pub open spec fn after_write<R>(m: Map<u64, SlotView<R>>, id: ThreadId, result: R) -> Map<
    u64,
    SlotView<R>,
> {
    if m.contains_key(id@) {
        m.insert(id@, SlotView { result: Some(result), waiters: Seq::empty() })
    } else {
        m
    }
}

/// The waiters that a write of a result releases.
pub open spec fn released<R>(m: Map<u64, SlotView<R>>, id: ThreadId) -> Seq<u64> {
    if m.contains_key(id@) {
        m[id@].waiters
    } else {
        Seq::empty()
    }
}

/// The result that `remove` takes.
pub open spec fn taken<R>(m: Map<u64, SlotView<R>>, id: ThreadId) -> Option<R> {
    if m.contains_key(id@) {
        m[id@].result
    } else {
        None
    }
}

/// The map after `remove`.
pub open spec fn after_remove<R>(m: Map<u64, SlotView<R>>, id: ThreadId) -> Map<u64, SlotView<R>> {
    if taken(m, id).is_some() {
        m.remove(id@)
    } else {
        m
    }
}

/// What `listen` finds.
pub open spec fn heard<R>(m: Map<u64, SlotView<R>>, id: ThreadId) -> Listen {
    if !m.contains_key(id@) {
        Listen::Untracked
    } else if m[id@].result.is_some() {
        Listen::Resolved
    } else {
        Listen::Waiting
    }
}

/// The map after `listen`.
pub open spec fn after_listen<R>(m: Map<u64, SlotView<R>>, id: ThreadId, waiter: u64) -> Map<
    u64,
    SlotView<R>,
> {
    if heard(m, id) == Listen::Waiting {
        m.insert(id@, SlotView { result: None, waiters: m[id@].waiters.push(waiter) })
    } else {
        m
    }
}

/// Tracks threads, keeps the result of each tracked thread until it is
/// taken, and records who waits for a result that is not there yet.
pub struct ThreadResultMap<R> {
    slots: HashMap<u64, Slot<R>>,
}

impl<R> View for ThreadResultMap<R> {
    type V = Map<u64, SlotView<R>>;

    closed spec fn view(&self) -> Map<u64, SlotView<R>> {
        Map::new(
            |k: u64| self.slots@.contains_key(k),
            |k: u64| (SlotView { result: self.slots@[k].result, waiters: self.slots@[k].waiters@ }),
        )
    }
}

impl<R> ThreadResultMap<R> {
    /// A map that tracks nothing.
    pub fn new() -> (map: Self)
        ensures
            map@ == Map::<u64, SlotView<R>>::empty(),
    {
        let map = ThreadResultMap { slots: HashMap::new() };
        assert(map@ =~= Map::<u64, SlotView<R>>::empty());
        map
    }

    /// Whether `id` is tracked.
    pub fn is_tracked(&self, id: ThreadId) -> (found: bool)
        ensures
            found == self@.contains_key(id@),
    {
        let key: u64 = id.index();
        self.slots.contains_key(&key)
    }

    /// Marks `id` as tracked, with no result yet. Nothing changes where it
    /// is tracked already.
    pub fn track(&mut self, id: ThreadId)
        ensures
            final(self)@ == after_track(old(self)@, id),
    {
        let key: u64 = id.index();
        if !self.slots.contains_key(&key) {
            self.slots.insert(key, Slot { result: None, waiters: Vec::new() });
        }
        assert(self@ =~= after_track(old(self)@, id));
    }

    /// Writes the result of `id` and returns the waiters that this
    /// releases: all that listened for it, in the order in which they came.
    /// For a thread that is not tracked the result is dropped and nothing
    /// changes. A second write replaces the first.
    pub fn insert(&mut self, id: ThreadId, result: R) -> (woken: Vec<u64>)
        ensures
            final(self)@ == after_write(old(self)@, id, result),
            woken@ == released(old(self)@, id),
    {
        let key: u64 = id.index();
        let woken = match self.slots.remove(&key) {
            None => Vec::new(),
            Some(slot) => {
                self.slots.insert(key, Slot { result: Some(result), waiters: Vec::new() });
                slot.waiters
            },
        };
        assert(self@ =~= after_write(old(self)@, id, result));
        woken
    }

    /// Takes the result of `id` and stops tracking it. Where there is no
    /// result, because none was written or `id` is not tracked, nothing is
    /// returned and nothing changes.
    pub fn remove(&mut self, id: ThreadId) -> (result: Option<R>)
        ensures
            result == taken(old(self)@, id),
            final(self)@ == after_remove(old(self)@, id),
    {
        let key: u64 = id.index();
        let result = match self.slots.remove(&key) {
            None => None,
            Some(slot) => {
                if slot.result.is_some() {
                    slot.result
                } else {
                    self.slots.insert(key, slot);
                    None
                }
            },
        };
        assert(self@ =~= after_remove(old(self)@, id));
        result
    }

    /// Asks for the result of `id` on behalf of `waiter`. Where the result
    /// is not there yet, the waiter is recorded behind those that came
    /// before.
    pub fn listen(&mut self, id: ThreadId, waiter: u64) -> (found: Listen)
        ensures
            found == heard(old(self)@, id),
            final(self)@ == after_listen(old(self)@, id, waiter),
    {
        let key: u64 = id.index();
        let found = match self.slots.remove(&key) {
            None => Listen::Untracked,
            Some(slot) => {
                if slot.result.is_some() {
                    self.slots.insert(key, slot);
                    Listen::Resolved
                } else {
                    let mut waiters = slot.waiters;
                    waiters.push(waiter);
                    self.slots.insert(key, Slot { result: None, waiters });
                    Listen::Waiting
                }
            },
        };
        assert(self@ =~= after_listen(old(self)@, id, waiter));
        found
    }
}

/// The map after each of `waiters` has listened for `id`, one after the
/// other.
pub open spec fn after_listens<R>(m: Map<u64, SlotView<R>>, id: ThreadId, waiters: Seq<u64>) -> Map<
    u64,
    SlotView<R>,
>
    decreases waiters.len(),
{
    if waiters.len() == 0 {
        m
    } else {
        after_listen(after_listens(m, id, waiters.drop_last()), id, waiters.last())
    }
}

/// Once a thread is tracked, a result written for it is what the first
/// `remove` takes, whoever listened in between; that `remove` ends the
/// tracking, and a second `remove` takes nothing.
pub proof fn lemma_result_taken_once<R>(
    m: Map<u64, SlotView<R>>,
    id: ThreadId,
    waiters: Seq<u64>,
    result: R,
)
    ensures
        ({
            let written = after_write(after_listens(after_track(m, id), id, waiters), id, result);
            let emptied = after_remove(written, id);
            &&& taken(written, id) == Some(result)
            &&& !emptied.contains_key(id@)
            &&& taken(emptied, id) == None::<R>
            &&& after_remove(emptied, id) == emptied
        }),
{
    lemma_listens_keep_tracking(after_track(m, id), id, waiters);
}

/// Listening never starts or ends the tracking of a thread.
pub proof fn lemma_listens_keep_tracking<R>(m: Map<u64, SlotView<R>>, id: ThreadId, waiters: Seq<u64>)
    ensures
        after_listens(m, id, waiters).contains_key(id@) == m.contains_key(id@),
    decreases waiters.len(),
{
    if waiters.len() > 0 {
        lemma_listens_keep_tracking(m, id, waiters.drop_last());
    }
}

/// For a thread that is not tracked, writing a result changes nothing and
/// releases nobody, and a `remove` afterwards takes nothing.
pub proof fn lemma_untracked_write_is_dropped<R>(m: Map<u64, SlotView<R>>, id: ThreadId, result: R)
    requires
        !m.contains_key(id@),
    ensures
        after_write(m, id, result) == m,
        released(m, id) == Seq::<u64>::empty(),
        taken(after_write(m, id, result), id) == None::<R>,
        after_remove(after_write(m, id, result), id) == m,
{
}

/// Tracking a thread twice is tracking it once: the second call changes
/// nothing, whatever happened to the thread in between.
pub proof fn lemma_track_is_idempotent<R>(m: Map<u64, SlotView<R>>, id: ThreadId, waiters: Seq<u64>)
    ensures
        after_track(after_track(m, id), id) == after_track(m, id),
        after_track(after_listens(after_track(m, id), id, waiters), id) == after_listens(
            after_track(m, id),
            id,
            waiters,
        ),
{
    lemma_listens_keep_tracking(after_track(m, id), id, waiters);
}

/// Every listener of a thread without a result is released by the write of
/// its result: the write releases those that waited before and all of
/// `waiters`, in the order in which they came, and leaves nobody waiting.
/// Whoever listens after the write finds the result at once.
pub proof fn lemma_write_releases_all_listeners<R>(
    m: Map<u64, SlotView<R>>,
    id: ThreadId,
    waiters: Seq<u64>,
    late: u64,
    result: R,
)
    requires
        heard(m, id) == Listen::Waiting,
    ensures
        heard(after_listens(m, id, waiters), id) == Listen::Waiting,
        released(after_listens(m, id, waiters), id) == m[id@].waiters + waiters,
        ({
            let written = after_write(after_listens(m, id, waiters), id, result);
            &&& released(written, id) == Seq::<u64>::empty()
            &&& heard(written, id) == Listen::Resolved
            &&& after_listen(written, id, late) == written
        }),
    decreases waiters.len(),
{
    if waiters.len() > 0 {
        lemma_write_releases_all_listeners(m, id, waiters.drop_last(), late, result);
        assert(m[id@].waiters + waiters =~= (m[id@].waiters + waiters.drop_last()).push(
            waiters.last(),
        ));
    } else {
        assert(m[id@].waiters + waiters =~= m[id@].waiters);
    }
}

/// What is done for one thread leaves the slot of every other thread as
/// it was.
pub proof fn lemma_other_threads_untouched<R>(
    m: Map<u64, SlotView<R>>,
    id: ThreadId,
    other: ThreadId,
    waiter: u64,
    result: R,
)
    requires
        id != other,
    ensures
        after_track(m, id).contains_key(other@) == m.contains_key(other@),
        after_write(m, id, result).contains_key(other@) == m.contains_key(other@),
        after_remove(m, id).contains_key(other@) == m.contains_key(other@),
        after_listen(m, id, waiter).contains_key(other@) == m.contains_key(other@),
        m.contains_key(other@) ==> {
            &&& after_track(m, id)[other@] == m[other@]
            &&& after_write(m, id, result)[other@] == m[other@]
            &&& after_remove(m, id)[other@] == m[other@]
            &&& after_listen(m, id, waiter)[other@] == m[other@]
        },
{
}

} // verus!
