//! Script threads of the Lua engine: what is turned into a thread without
//! asking the engine, and what the engine says of a thread after it was
//! resumed.
//!
//! A function or a chunk becomes a thread only by a call into the engine,
//! which refuses a value of another Lua state. That call is the host's: it
//! hands the outcome to `Runtime::spawn_thread` or `Runtime::defer_thread`.

use vstd::prelude::*;
use crate::outcome::can_resume;
use crate::outcome::classify;
use crate::outcome::Resumed;
use crate::outcome::ThreadState;
use crate::queue::ConversionError;
use crate::queue::QueuedThread;
use crate::runtime::Runtime;
use crate::runtime::RuntimeView;
use crate::thread_id::ThreadId;

verus! {

/// `mlua::Lua`, a Lua state. Opaque: nothing is known of what it holds.
#[verifier::external_type_specification]
#[verifier::external_body]
pub struct ExLua(mlua::Lua);

/// `mlua::Thread`, a handle to a coroutine. Opaque.
#[verifier::external_type_specification]
#[verifier::external_body]
pub struct ExThread<'lua>(mlua::Thread<'lua>);

/// `mlua::MultiValue`, the values passed to or returned by a thread. Opaque.
#[verifier::external_type_specification]
#[verifier::external_body]
pub struct ExMultiValue<'lua>(mlua::MultiValue<'lua>);

/// `mlua::Error`, what the engine reports when it fails. Opaque.
#[verifier::external_type_specification]
#[verifier::external_body]
pub struct ExError(mlua::Error);

/// Calls `mlua::Thread::status` and names the variant it returns. Nothing
/// is claimed of the outcome: it is the state of the coroutine at the time
/// of the call.
#[verifier::external_body]
fn thread_status<'lua>(thread: &mlua::Thread<'lua>) -> (state: ThreadState) {
    match thread.status() {
        mlua::ThreadStatus::Resumable => ThreadState::Resumable,
        mlua::ThreadStatus::Unresumable => ThreadState::Unresumable,
        mlua::ThreadStatus::Error => ThreadState::Failed,
    }
}

/// A value that can be turned into a Lua thread and handed to the runtime.
/// The library turns a thread into itself, and a borrowed value into what
/// its clone is turned into.
pub trait IntoLuaThread<'lua>: Sized {
    /// What holds of every outcome of turning this value into a thread of
    /// `lua`. A thread admits one outcome only: itself.
    spec fn converts_to(
        self,
        lua: &'lua mlua::Lua,
        thread: Result<mlua::Thread<'lua>, mlua::Error>,
    ) -> bool;

    /// Turns the value into a thread of `lua`.
    fn into_lua_thread(self, lua: &'lua mlua::Lua) -> (thread: Result<
        mlua::Thread<'lua>,
        mlua::Error,
    >)
        ensures
            self.converts_to(lua, thread),
    ;
}

impl<'lua> IntoLuaThread<'lua> for mlua::Thread<'lua> {
    /// The conversion of a thread always succeeds, with that thread.
    open spec fn converts_to(
        self,
        lua: &'lua mlua::Lua,
        thread: Result<mlua::Thread<'lua>, mlua::Error>,
    ) -> bool {
        thread == Ok::<mlua::Thread<'lua>, mlua::Error>(self)
    }

    /// A thread is a thread already.
    fn into_lua_thread(self, lua: &'lua mlua::Lua) -> (thread: Result<
        mlua::Thread<'lua>,
        mlua::Error,
    >)
        ensures
            thread == Ok::<mlua::Thread<'lua>, mlua::Error>(self),
    {
        Ok(self)
    }
}

impl<'lua, T: IntoLuaThread<'lua> + Clone> IntoLuaThread<'lua> for &T {
    /// The outcome is one that the conversion of some clone of the borrowed
    /// value admits.
    open spec fn converts_to(
        self,
        lua: &'lua mlua::Lua,
        thread: Result<mlua::Thread<'lua>, mlua::Error>,
    ) -> bool {
        exists|copy: T| cloned::<T>(*self, copy) && #[trigger] copy.converts_to(lua, thread)
    }

    /// A borrowed value is cloned, and the clone is turned into a thread.
    fn into_lua_thread(self, lua: &'lua mlua::Lua) -> (thread: Result<
        mlua::Thread<'lua>,
        mlua::Error,
    >) {
        let copy = self.clone();
        let ghost witness = copy;
        let thread = copy.into_lua_thread(lua);
        assert(cloned::<T>(*self, witness) && witness.converts_to(lua, thread));
        thread
    }
}

/// Whether `after` is `before` with one more thread at its tail, queued
/// under `id` with `args`.
pub open spec fn queued_behind<T, A>(
    before: Seq<QueuedThread<T, A>>,
    after: Seq<QueuedThread<T, A>>,
    id: ThreadId,
    args: A,
) -> bool {
    &&& after.len() == before.len() + 1
    &&& after.drop_last() == before
    &&& after.last().id == id
    &&& after.last().args == args
}

/// Whether the engine calls `thread` resumable right now: a thread taken
/// from a queue is resumed only if so.
pub fn is_resumable<'lua>(thread: &mlua::Thread<'lua>) -> (yes: bool) {
    can_resume(thread_status(thread))
}

/// Tells how `thread` gave control back, from what its resume returned and
/// the state that the engine reports of it now.
pub fn outcome_of<'lua>(
    thread: &mlua::Thread<'lua>,
    resumed: Result<mlua::MultiValue<'lua>, mlua::Error>,
) -> (outcome: Resumed<mlua::MultiValue<'lua>, mlua::Error>)
    ensures
        resumed is Err ==> outcome == Resumed::<mlua::MultiValue<'lua>, mlua::Error>::Failed(
            resumed->Err_0,
        ),
        resumed is Ok ==> outcome == Resumed::<mlua::MultiValue<'lua>, mlua::Error>::Suspended(
            resumed->Ok_0,
        ) || outcome == Resumed::<mlua::MultiValue<'lua>, mlua::Error>::Completed(resumed->Ok_0),
{
    let state = thread_status(thread);
    classify(resumed, state)
}

impl<'lua, F, R> Runtime<mlua::Thread<'lua>, mlua::MultiValue<'lua>, F, R> {
    /// Turns `source` into a thread of `lua` and queues it on the spawn
    /// queue. What is queued is the thread that the conversion gave; where
    /// the conversion failed, its error comes back and the runtime is as it
    /// was. A source that is a thread already is always queued, as it is.
    pub fn spawn_lua_thread<S: IntoLuaThread<'lua>>(
        &mut self,
        lua: &'lua mlua::Lua,
        source: S,
        args: mlua::MultiValue<'lua>,
    ) -> (spawned: Result<ThreadId, ConversionError<mlua::Error>>)
        requires
            (exists|thread: mlua::Thread<'lua>| #[trigger]
                source.converts_to(lua, Ok::<mlua::Thread<'lua>, mlua::Error>(thread)))
                ==> old(self).issued() < u64::MAX,
        ensures
            final(self).results() == old(self).results(),
            old(self).unique_ids() ==> final(self).unique_ids(),
            match spawned {
                Ok(id) => {
                    &&& id@ == old(self).issued()
                    &&& final(self).issued() == old(self).issued() + 1
                    &&& queued_behind(old(self)@.spawned, final(self)@.spawned, id, args)
                    &&& source.converts_to(
                        lua,
                        Ok::<mlua::Thread<'lua>, mlua::Error>(final(self)@.spawned.last().thread),
                    )
                    &&& final(self)@ == (RuntimeView {
                        spawned: final(self)@.spawned,
                        ..old(self)@
                    })
                },
                Err(error) => {
                    &&& source.converts_to(
                        lua,
                        Err::<mlua::Thread<'lua>, mlua::Error>(error.cause),
                    )
                    &&& final(self).issued() == old(self).issued()
                    &&& final(self)@ == old(self)@
                },
            },
    {
        let converted = source.into_lua_thread(lua);
        let spawned = self.spawn_thread(converted, args);
        assert(spawned is Ok ==> self@.spawned.drop_last() =~= old(self)@.spawned);
        spawned
    }

    /// Turns `source` into a thread of `lua` and queues it on the defer
    /// queue. What is queued is the thread that the conversion gave; where
    /// the conversion failed, its error comes back and the runtime is as it
    /// was. A source that is a thread already is always queued, as it is.
    pub fn defer_lua_thread<S: IntoLuaThread<'lua>>(
        &mut self,
        lua: &'lua mlua::Lua,
        source: S,
        args: mlua::MultiValue<'lua>,
    ) -> (deferred: Result<ThreadId, ConversionError<mlua::Error>>)
        requires
            (exists|thread: mlua::Thread<'lua>| #[trigger]
                source.converts_to(lua, Ok::<mlua::Thread<'lua>, mlua::Error>(thread)))
                ==> old(self).issued() < u64::MAX,
        ensures
            final(self).results() == old(self).results(),
            old(self).unique_ids() ==> final(self).unique_ids(),
            match deferred {
                Ok(id) => {
                    &&& id@ == old(self).issued()
                    &&& final(self).issued() == old(self).issued() + 1
                    &&& queued_behind(old(self)@.deferred, final(self)@.deferred, id, args)
                    &&& source.converts_to(
                        lua,
                        Ok::<mlua::Thread<'lua>, mlua::Error>(final(self)@.deferred.last().thread),
                    )
                    &&& final(self)@ == (RuntimeView {
                        deferred: final(self)@.deferred,
                        ..old(self)@
                    })
                },
                Err(error) => {
                    &&& source.converts_to(
                        lua,
                        Err::<mlua::Thread<'lua>, mlua::Error>(error.cause),
                    )
                    &&& final(self).issued() == old(self).issued()
                    &&& final(self)@ == old(self)@
                },
            },
    {
        let converted = source.into_lua_thread(lua);
        let deferred = self.defer_thread(converted, args);
        assert(deferred is Ok ==> self@.deferred.drop_last() =~= old(self)@.deferred);
        deferred
    }
}

} // verus!
