//! The queues that the run-loop drains: threads waiting to run, and
//! thread-local futures waiting to be handed to the executor.

use vstd::prelude::*;
use crate::thread_id::ThreadId;
use crate::thread_id::ThreadIdSource;

verus! {

/// A thread waiting in a queue: the script thread, the arguments it will be
/// resumed with, and the identifier it was given when it was queued.
pub struct QueuedThread<T, A> {
    pub id: ThreadId,
    pub thread: T,
    pub args: A,
}

/// A value could not be turned into a runnable thread. Holds what the
/// script engine reported.
pub struct ConversionError<E> {
    pub cause: E,
}

/// A first-in, first-out queue of threads.
pub struct ThreadQueue<T, A> {
    items: Vec<QueuedThread<T, A>>,
}

impl<T, A> View for ThreadQueue<T, A> {
    type V = Seq<QueuedThread<T, A>>;

    closed spec fn view(&self) -> Seq<QueuedThread<T, A>> {
        self.items@
    }
}

impl<T, A> ThreadQueue<T, A> {
    /// An empty queue.
    pub fn new() -> (queue: Self)
        ensures
            queue@ == Seq::<QueuedThread<T, A>>::empty(),
    {
        ThreadQueue { items: Vec::new() }
    }

    /// The number of threads waiting.
    pub fn len(&self) -> (n: usize)
        ensures
            n == self@.len(),
    {
        self.items.len()
    }

    /// Whether no thread is waiting.
    pub fn is_empty(&self) -> (empty: bool)
        ensures
            empty == (self@.len() == 0),
    {
        self.items.len() == 0
    }

    /// Appends a thread with its arguments under a fresh identifier, and
    /// returns that identifier.
    pub fn push_item(&mut self, ids: &mut ThreadIdSource, thread: T, args: A) -> (id: ThreadId)
        requires
            old(ids).issued() < u64::MAX,
        ensures
            id@ == old(ids).issued(),
            final(ids).issued() == old(ids).issued() + 1,
            final(self)@ == old(self)@.push((QueuedThread { id, thread, args })),
    {
        let id = ids.next_id();
        self.items.push(QueuedThread { id, thread, args });
        id
    }

    /// Appends what a conversion produced. A thread is appended as
    /// `push_item` does; a failed conversion is returned as the error, and
    /// neither the queue nor the identifier source changes.
    pub fn push_converted<E>(
        &mut self,
        ids: &mut ThreadIdSource,
        converted: Result<T, E>,
        args: A,
    ) -> (pushed: Result<ThreadId, ConversionError<E>>)
        requires
            converted is Ok ==> old(ids).issued() < u64::MAX,
        ensures
            match converted {
                Ok(thread) => {
                    &&& pushed == Ok::<ThreadId, ConversionError<E>>(
                        (ThreadId { index: old(ids).issued() }),
                    )
                    &&& final(ids).issued() == old(ids).issued() + 1
                    &&& final(self)@ == old(self)@.push(
                        (QueuedThread { id: (ThreadId { index: old(ids).issued() }), thread, args }),
                    )
                },
                Err(cause) => {
                    &&& pushed == Err::<ThreadId, ConversionError<E>>((ConversionError { cause }))
                    &&& final(ids).issued() == old(ids).issued()
                    &&& final(self)@ == old(self)@
                },
            },
    {
        match converted {
            Ok(thread) => Ok(self.push_item(ids, thread, args)),
            Err(cause) => Err(ConversionError { cause }),
        }
    }

    /// Takes the thread at the head of the queue, if there is one.
    pub fn pop_front(&mut self) -> (head: Option<QueuedThread<T, A>>)
        ensures
            old(self)@.len() == 0 ==> head.is_none() && final(self)@ == old(self)@,
            old(self)@.len() > 0 ==> head == Some(old(self)@[0]) && final(self)@ == old(
                self,
            )@.drop_first(),
    {
        if self.items.len() == 0 {
            None
        } else {
            let head = self.items.remove(0);
            assert(self.items@ =~= old(self).items@.drop_first());
            Some(head)
        }
    }

    /// Takes every thread out of the queue, in queue order.
    pub fn drain_items(&mut self) -> (taken: Vec<QueuedThread<T, A>>)
        ensures
            taken@ == old(self)@,
            final(self)@ == Seq::<QueuedThread<T, A>>::empty(),
    {
        let mut taken: Vec<QueuedThread<T, A>> = Vec::new();
        std::mem::swap(&mut self.items, &mut taken);
        taken
    }
}

/// A first-in, first-out queue of futures that must run on the context of
/// the scheduler. Nothing is returned for a pushed future: the queue only
/// keeps it until the run-loop hands it to the executor.
pub struct FuturesQueue<F> {
    items: Vec<F>,
}

impl<F> View for FuturesQueue<F> {
    type V = Seq<F>;

    closed spec fn view(&self) -> Seq<F> {
        self.items@
    }
}

impl<F> FuturesQueue<F> {
    /// An empty queue.
    pub fn new() -> (queue: Self)
        ensures
            queue@ == Seq::<F>::empty(),
    {
        FuturesQueue { items: Vec::new() }
    }

    /// The number of futures waiting.
    pub fn len(&self) -> (n: usize)
        ensures
            n == self@.len(),
    {
        self.items.len()
    }

    /// Whether no future is waiting.
    pub fn is_empty(&self) -> (empty: bool)
        ensures
            empty == (self@.len() == 0),
    {
        self.items.len() == 0
    }

    /// Appends a future.
    pub fn push_item(&mut self, fut: F)
        ensures
            final(self)@ == old(self)@.push(fut),
    {
        self.items.push(fut);
    }

    /// Takes every future out of the queue, in queue order.
    pub fn drain_items(&mut self) -> (taken: Vec<F>)
        ensures
            taken@ == old(self)@,
            final(self)@ == Seq::<F>::empty(),
    {
        let mut taken: Vec<F> = Vec::new();
        std::mem::swap(&mut self.items, &mut taken);
        taken
    }
}

} // verus!
