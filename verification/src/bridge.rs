//! The executor bridge: how work that a script callback starts reaches the
//! background executor and the blocking pool, and what is reported when the
//! runtime behind them is gone.

use std::future::Future;
use std::sync::Arc;
use vstd::prelude::*;

verus! {

/// `async_executor::Executor`, the background executor. Opaque: nothing is
/// known of the tasks it holds.
#[verifier::external_type_specification]
#[verifier::external_body]
pub struct ExExecutor<'a>(async_executor::Executor<'a>);

/// `async_executor::Task`, the handle by which the output of spawned work is
/// awaited. Opaque.
#[verifier::external_type_specification]
#[verifier::external_body]
#[verifier::reject_recursive_types(T)]
#[verifier::reject_recursive_types(M)]
pub struct ExTask<T, M>(async_executor::Task<T, M>);

/// A use of the scheduler outside an active runtime.
#[derive(Clone, Copy, Debug, PartialEq, Eq, Structural)]
pub enum ContractViolation {
    /// No runtime is bound to the calling context.
    Unbound,
    /// A runtime was bound, and the executor it owned has been torn down.
    ExecutorDropped,
}

/// What the lookup of a weakly held resource of the runtime found.
pub enum Handle<H> {
    /// Nothing was ever registered.
    Unbound,
    /// The resource was registered and is gone.
    Dropped,
    /// The resource, alive.
    Live(H),
}

impl<H> Handle<H> {
    /// What a resolved handle gives: the resource where it is alive, and
    /// else the violation that its absence amounts to.
    pub open spec fn resolved(self) -> Result<H, ContractViolation> {
        match self {
            Handle::Unbound => Err(ContractViolation::Unbound),
            Handle::Dropped => Err(ContractViolation::ExecutorDropped),
            Handle::Live(resource) => Ok(resource),
        }
    }

    /// The handle for what two lookups found: first whether anything was
    /// registered, then whether what was registered is still alive.
    pub fn from_lookup(found: Option<Option<H>>) -> (handle: Handle<H>)
        ensures
            handle == match found {
                None => Handle::<H>::Unbound,
                Some(None) => Handle::<H>::Dropped,
                Some(Some(resource)) => Handle::<H>::Live(resource),
            },
    {
        match found {
            None => Handle::Unbound,
            Some(None) => Handle::Dropped,
            Some(Some(resource)) => Handle::Live(resource),
        }
    }

    /// The resource, or the violation that its absence amounts to.
    pub fn resolve(self) -> (resolved: Result<H, ContractViolation>)
        ensures
            resolved == self.resolved(),
    {
        match self {
            Handle::Unbound => Err(ContractViolation::Unbound),
            Handle::Dropped => Err(ContractViolation::ExecutorDropped),
            Handle::Live(resource) => Ok(resource),
        }
    }
}

/// Calls `async_executor::Executor::spawn`, which hands a future to the
/// executor and returns the task that stands for it. Nothing is claimed of
/// the task.
#[verifier::external_body]
fn executor_spawn<F, T>(exec: &Arc<async_executor::Executor<'static>>, fut: F) -> (task:
    async_executor::Task<T, ()>) where F: Future<Output = T> + Send + 'static, T: Send + 'static {
    exec.spawn(fut)
}

/// Calls `blocking::unblock`, which runs a function on the pool for
/// blocking work and returns the task that stands for it. Nothing is claimed
/// of the task.
#[verifier::external_body]
fn unblock<F, T>(f: F) -> (task: async_executor::Task<T, ()>) where
    F: FnOnce() -> T + Send + 'static,
    T: Send + 'static,

    requires
        f.requires(()),
{
    blocking::unblock(f)
}

/// Spawns a future on the background executor and returns its task. Where
/// the executor is not there, nothing is spawned and the violation is
/// returned.
pub fn spawn<F, T>(handle: Handle<Arc<async_executor::Executor<'static>>>, fut: F) -> (task: Result<
    async_executor::Task<T, ()>,
    ContractViolation,
>) where F: Future<Output = T> + Send + 'static, T: Send + 'static
    ensures
        handle is Unbound ==> task == Err::<async_executor::Task<T, ()>, ContractViolation>(
            ContractViolation::Unbound,
        ),
        handle is Dropped ==> task == Err::<async_executor::Task<T, ()>, ContractViolation>(
            ContractViolation::ExecutorDropped,
        ),
        handle is Live ==> task is Ok,
{
    match handle.resolve() {
        Ok(exec) => Ok(executor_spawn(&exec, fut)),
        Err(violation) => Err(violation),
    }
}

/// Runs a blocking function on the pool for blocking work, so that the
/// scheduler's own context is never held up, and returns the task that the
/// background executor has for its result. Where the executor is not there,
/// the function is not run and the violation is returned.
pub fn spawn_blocking<F, T>(handle: Handle<Arc<async_executor::Executor<'static>>>, f: F) -> (task:
    Result<async_executor::Task<T, ()>, ContractViolation>) where
    F: FnOnce() -> T + Send + 'static,
    T: Send + 'static,

    requires
        f.requires(()),
    ensures
        handle is Unbound ==> task == Err::<async_executor::Task<T, ()>, ContractViolation>(
            ContractViolation::Unbound,
        ),
        handle is Dropped ==> task == Err::<async_executor::Task<T, ()>, ContractViolation>(
            ContractViolation::ExecutorDropped,
        ),
        handle is Live ==> task is Ok,
{
    match handle.resolve() {
        Ok(exec) => Ok(executor_spawn(&exec, unblock(f))),
        Err(violation) => Err(violation),
    }
}

} // verus!
