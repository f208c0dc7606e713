//! What became of a thread that was resumed.

use vstd::prelude::*;

verus! {

/// What the script engine says of a thread.
#[derive(Clone, Copy, Debug, PartialEq, Eq, Structural)]
pub enum ThreadState {
    /// Created and not yet run, or suspended: it can be resumed.
    Resumable,
    /// Finished, or running right now.
    Unresumable,
    /// Ended with an error.
    Failed,
}

/// How a resumed thread gave control back.
pub enum Resumed<V, E> {
    /// It suspended itself, with these values. It is not queued again:
    /// whatever it waits for resumes it.
    Suspended(V),
    /// It ran to its end and returned these values.
    Completed(V),
    /// It failed with this error.
    Failed(E),
}

impl<V, E> Resumed<V, E> {
    /// The result that a thread leaves behind when it gives control back
    /// like this: none while it is only suspended.
    pub open spec fn final_result(self) -> Option<Result<V, E>> {
        match self {
            Resumed::Suspended(_) => None,
            Resumed::Completed(values) => Some(Ok(values)),
            Resumed::Failed(error) => Some(Err(error)),
        }
    }

    /// The result that the thread leaves behind, if it has ended.
    pub fn into_result(self) -> (result: Option<Result<V, E>>)
        ensures
            result == self.final_result(),
    {
        match self {
            Resumed::Suspended(_) => None,
            Resumed::Completed(values) => Some(Ok(values)),
            Resumed::Failed(error) => Some(Err(error)),
        }
    }
}

/// Whether a thread taken from a queue is to be resumed: only one that the
/// engine calls resumable is.
pub fn can_resume(state: ThreadState) -> (yes: bool)
    ensures
        yes == (state == ThreadState::Resumable),
{
    match state {
        ThreadState::Resumable => true,
        _ => false,
    }
}

/// Tells how a thread gave control back, from what the resume returned and
/// the state the thread is in afterwards. An error is a failure. Values from
/// a thread that can be resumed again were yielded; values from any other
/// thread were returned at its end.
pub fn classify<V, E>(resumed: Result<V, E>, state: ThreadState) -> (outcome: Resumed<V, E>)
    ensures
        outcome == match resumed {
            Err(error) => Resumed::<V, E>::Failed(error),
            Ok(values) => if state == ThreadState::Resumable {
                Resumed::<V, E>::Suspended(values)
            } else {
                Resumed::<V, E>::Completed(values)
            },
        },
{
    match resumed {
        Err(error) => Resumed::Failed(error),
        Ok(values) => {
            if can_resume(state) {
                Resumed::Suspended(values)
            } else {
                Resumed::Completed(values)
            }
        },
    }
}

} // verus!
