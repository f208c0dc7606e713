use std::sync::mpsc::channel;
use std::sync::Arc;
use std::time::Duration;

use async_executor::Executor;
use mlua::{Lua, MultiValue, Value};
use mlua_luau_runtime::bridge::{spawn, spawn_blocking, ContractViolation, Handle};
use mlua_luau_runtime::lua_thread::{is_resumable, outcome_of, IntoLuaThread};
use mlua_luau_runtime::queue::ConversionError;
use mlua_luau_runtime::outcome::Resumed;
use mlua_luau_runtime::runtime::{Action, Runtime};

type LuaRt<'lua> =
    Runtime<mlua::Thread<'lua>, MultiValue<'lua>, (), Result<MultiValue<'lua>, mlua::Error>>;

fn number(values: &MultiValue) -> i64 {
    match values.iter().next() {
        Some(Value::Integer(n)) => i64::from(*n),
        Some(Value::Number(n)) => *n as i64,
        other => panic!("no number: {:?}", other),
    }
}

fn thread_of<'lua>(lua: &'lua Lua, source: &str) -> mlua::Result<mlua::Thread<'lua>> {
    lua.load(source)
        .into_function()
        .and_then(|func| lua.create_thread(func))
}

#[test]
fn new_thread_is_resumable_until_it_ends() {
    let lua = Lua::new();
    let thread = thread_of(&lua, "return 20 + 22").unwrap();
    assert!(is_resumable(&thread));
    let values: MultiValue = thread.resume(()).unwrap();
    assert_eq!(number(&values), 42);
    assert!(!is_resumable(&thread));
}

#[test]
fn borrowed_thread_is_cloned() {
    let lua = Lua::new();
    let thread = thread_of(&lua, "return 3").unwrap();
    let first = (&thread).into_lua_thread(&lua).unwrap();
    let second = (&&thread).into_lua_thread(&lua).unwrap();
    assert!(first == thread && second == thread);
    assert_eq!(number(&first.resume::<_, MultiValue>(()).unwrap()), 3);
    assert!(!is_resumable(&second));
}

#[test]
fn thread_is_handed_back_as_it_is() {
    let lua = Lua::new();
    let func = lua.load("return 1").into_function().unwrap();
    let thread = lua.create_thread(func).unwrap();
    let same = thread.clone().into_lua_thread(&lua).unwrap();
    assert!(same == thread);
}

#[test]
fn chunk_is_compiled_and_run_through_the_runtime() {
    let lua = Lua::new();
    let mut rt: LuaRt = Runtime::new();
    let deferred = rt.defer_thread(thread_of(&lua, "return 2"), MultiValue::new()).ok().unwrap();
    let spawned = rt.spawn_thread(thread_of(&lua, "return 1"), MultiValue::new()).ok().unwrap();
    assert_eq!((deferred.index(), spawned.index()), (0, 1));
    rt.track_thread(deferred);
    rt.track_thread(spawned);
    let mut order = Vec::new();
    loop {
        match rt.next_action(false) {
            Action::Resume(queued) => {
                assert!(is_resumable(&queued.thread));
                let resumed = queued.thread.resume::<_, MultiValue>(queued.args);
                let outcome = outcome_of(&queued.thread, resumed);
                assert!(matches!(outcome, Resumed::Completed(_)));
                order.push(queued.id);
                rt.thread_resumed(queued.id, outcome);
            }
            Action::Poll(_) => {}
            Action::Finish(code) => {
                assert_eq!(code, 0);
                break;
            }
        }
    }
    assert_eq!(order, vec![spawned, deferred]);
    assert_eq!(number(&rt.get_thread_result(spawned).unwrap().unwrap()), 1);
    assert_eq!(number(&rt.get_thread_result(deferred).unwrap().unwrap()), 2);
    assert!(rt.get_thread_result(spawned).is_none());
}

#[test]
fn malformed_chunk_is_a_conversion_error() {
    let lua = Lua::new();
    let mut rt: LuaRt = Runtime::new();
    let failed = rt.spawn_thread(thread_of(&lua, "this is ( not a script"), MultiValue::new());
    assert!(matches!(failed, Err(ConversionError { cause: mlua::Error::SyntaxError { .. } })));
    let failed = rt.defer_thread(
        Err(mlua::Error::RuntimeError("no chunk".to_string())),
        MultiValue::new(),
    );
    match failed {
        Err(ConversionError { cause: mlua::Error::RuntimeError(message) }) => {
            assert_eq!(message, "no chunk")
        }
        _ => panic!("the error of the conversion must come back"),
    }
    assert_eq!(rt.issued_ids(), 0);
    assert!(!rt.has_queued_threads());
    assert!(matches!(rt.next_action(false), Action::Finish(0)));
}

#[test]
fn yielding_thread_is_suspended_and_failing_thread_fails() {
    let lua = Lua::new();
    let thread = thread_of(&lua, "coroutine.yield(5) return 7").unwrap();
    let first = thread.resume::<_, MultiValue>(());
    match outcome_of(&thread, first) {
        Resumed::Suspended(values) => assert_eq!(number(&values), 5),
        _ => panic!("the thread yielded"),
    }
    assert!(is_resumable(&thread));
    let second = thread.resume::<_, MultiValue>(());
    match outcome_of(&thread, second) {
        Resumed::Completed(values) => assert_eq!(number(&values), 7),
        _ => panic!("the thread returned"),
    }
    let thread = thread_of(&lua, "error('boom')").unwrap();
    let failed = thread.resume::<_, MultiValue>(());
    assert!(matches!(outcome_of(&thread, failed), Resumed::Failed(_)));
    assert!(!is_resumable(&thread));
}

#[test]
fn background_future_runs_on_the_executor() {
    let exec = Arc::new(Executor::new());
    let (tx, rx) = channel();
    let task = spawn(Handle::Live(exec.clone()), async move {
        tx.send(11).unwrap();
        5
    })
    .ok()
    .unwrap();
    assert!(rx.try_recv().is_err());
    assert!(exec.try_tick());
    assert_eq!(rx.try_recv().unwrap(), 11);
    assert!(task.is_finished());
}

#[test]
fn blocking_function_runs_off_the_executor() {
    let exec = Arc::new(Executor::new());
    let (tx, rx) = channel();
    let task = spawn_blocking(Handle::Live(exec.clone()), move || {
        tx.send(13).unwrap();
    })
    .ok()
    .unwrap();
    assert_eq!(rx.recv_timeout(Duration::from_secs(10)).unwrap(), 13);
    drop(task);
}

#[test]
fn missing_executor_is_a_contract_violation() {
    let unbound: Handle<Arc<Executor<'static>>> = Handle::from_lookup(None);
    assert_eq!(spawn(unbound, async { 1 }).err(), Some(ContractViolation::Unbound));
    let dropped: Handle<Arc<Executor<'static>>> = Handle::from_lookup(Some(None));
    assert_eq!(spawn(dropped, async { 1 }).err(), Some(ContractViolation::ExecutorDropped));
    let dropped: Handle<Arc<Executor<'static>>> = Handle::Dropped;
    assert_eq!(
        spawn_blocking(dropped, || 1).err(),
        Some(ContractViolation::ExecutorDropped)
    );
    let unbound: Handle<Arc<Executor<'static>>> = Handle::Unbound;
    assert_eq!(spawn_blocking(unbound, || 1).err(), Some(ContractViolation::Unbound));
    let live = Handle::from_lookup(Some(Some(3)));
    assert_eq!(live.resolve(), Ok(3));
    assert_eq!(Handle::<u8>::Dropped.resolve(), Err(ContractViolation::ExecutorDropped));
}

#[test]
fn thread_source_is_queued_as_it_is() {
    let lua = Lua::new();
    let func = lua.load("return 9").into_function().unwrap();
    let thread = lua.create_thread(func).unwrap();
    let mut rt: LuaRt = Runtime::new();
    let deferred = rt.defer_lua_thread(&lua, thread.clone(), MultiValue::new()).ok().unwrap();
    let spawned = rt.spawn_lua_thread(&lua, &thread, MultiValue::new()).ok().unwrap();
    assert_eq!((deferred.index(), spawned.index()), (0, 1));
    match rt.next_action(false) {
        Action::Resume(queued) => {
            assert_eq!(queued.id, spawned);
            assert!(queued.thread == thread);
        }
        _ => panic!("the spawned thread must run"),
    }
    match rt.next_action(false) {
        Action::Resume(queued) => {
            assert_eq!(queued.id, deferred);
            assert!(queued.thread == thread);
            assert_eq!(number(&queued.thread.resume::<_, MultiValue>(queued.args).unwrap()), 9);
        }
        _ => panic!("the deferred thread must run"),
    };
}
