use mlua_luau_runtime::exit::EXIT_SUCCESS;
use mlua_luau_runtime::queue::{ConversionError, FuturesQueue, ThreadQueue};
use mlua_luau_runtime::runtime::{Action, Phase, Runtime};
use mlua_luau_runtime::thread_id::{ThreadId, ThreadIdSource};

type Rt = Runtime<&'static str, u32, &'static str, Result<u32, String>>;

/// Runs the loop to its end. A thread named "A" defers "B" and then spawns
/// "C"; a thread named "quit" sets the exit code 7 and then spawns "late".
fn drive(rt: &mut Rt, log: &mut Vec<String>, polled: &mut Vec<Vec<&'static str>>) -> u8 {
    let mut steps = 0;
    loop {
        steps += 1;
        assert!(steps < 1000, "the loop does not end");
        match rt.next_action(false) {
            Action::Resume(queued) => {
                log.push(queued.thread.to_string());
                if queued.thread == "A" {
                    rt.push_thread_back("B", 0);
                    rt.push_thread_front("C", 0);
                }
                if queued.thread == "quit" {
                    rt.set_exit_code(7);
                    rt.push_thread_front("late", 0);
                }
                if queued.thread == "D1" {
                    rt.push_thread_back("D3", 0);
                    rt.push_thread_front("S1", 0);
                }
                rt.complete_thread(queued.id, Ok(queued.args));
            }
            Action::Poll(futures) => polled.push(futures),
            Action::Finish(code) => return code,
        }
    }
}

#[test]
fn spawned_thread_runs_before_deferred_thread() {
    let mut rt = Rt::new();
    rt.push_thread_front("A", 0);
    let mut log = Vec::new();
    let mut polled = Vec::new();
    let code = drive(&mut rt, &mut log, &mut polled);
    assert_eq!(log, vec!["A", "C", "B"]);
    assert_eq!(code, EXIT_SUCCESS);
    assert_eq!(rt.phase(), Phase::Stopped);
}

#[test]
fn defer_queue_is_drained_once_per_tick() {
    let mut rt = Rt::new();
    rt.push_thread_back("D1", 0);
    rt.push_thread_back("D2", 0);
    let mut log = Vec::new();
    let mut polled = Vec::new();
    drive(&mut rt, &mut log, &mut polled);
    // D3 was deferred during the tick and S1 spawned from a deferred thread:
    // both wait for the next tick, where the spawned one comes first.
    assert_eq!(log, vec!["D1", "D2", "S1", "D3"]);
    assert_eq!(polled.len(), 1);
}

#[test]
fn run_ends_when_nothing_was_ever_spawned() {
    let mut rt = Rt::new();
    assert_eq!(rt.phase(), Phase::Idle);
    match rt.next_action(false) {
        Action::Finish(code) => assert_eq!(code, 0),
        _ => panic!("an empty runtime must finish"),
    }
    assert_eq!(rt.phase(), Phase::Stopped);
    match rt.next_action(false) {
        Action::Finish(code) => assert_eq!(code, 0),
        _ => panic!("a stopped runtime stays stopped"),
    }
}

#[test]
fn run_goes_on_while_work_is_outstanding() {
    let mut rt = Rt::new();
    match rt.next_action(true) {
        Action::Poll(futures) => assert!(futures.is_empty()),
        _ => panic!("outstanding work must be polled"),
    }
    assert_eq!(rt.phase(), Phase::Running);
    match rt.next_action(false) {
        Action::Finish(code) => assert_eq!(code, 0),
        _ => panic!("nothing is left"),
    }
}

#[test]
fn local_futures_are_handed_over_at_the_end_of_the_tick() {
    let mut rt = Rt::new();
    rt.push_thread_front("x", 1);
    rt.spawn_local("f1");
    rt.spawn_local("f2");
    let mut log = Vec::new();
    let mut polled = Vec::new();
    let code = drive(&mut rt, &mut log, &mut polled);
    assert_eq!(log, vec!["x"]);
    assert_eq!(polled, vec![vec!["f1", "f2"]]);
    assert_eq!(code, 0);
}

#[test]
fn exit_code_stops_the_loop_before_new_threads() {
    let mut rt = Rt::new();
    rt.push_thread_front("quit", 0);
    rt.push_thread_front("next", 0);
    rt.push_thread_back("deferred", 0);
    let mut log = Vec::new();
    let mut polled = Vec::new();
    let code = drive(&mut rt, &mut log, &mut polled);
    assert_eq!(log, vec!["quit"]);
    assert_eq!(code, 7);
    assert_eq!(rt.exit_code(), Some(7));
    assert_eq!(rt.phase(), Phase::Stopped);
    assert!(polled.is_empty());
}

#[test]
fn exit_code_set_while_running_begins_draining() {
    let mut rt = Rt::new();
    rt.set_exit_code(3);
    assert_eq!(rt.phase(), Phase::Idle);
    let mut rt = Rt::new();
    rt.push_thread_front("a", 0);
    match rt.next_action(false) {
        Action::Resume(queued) => assert_eq!(queued.thread, "a"),
        _ => panic!("the spawned thread must run"),
    }
    assert_eq!(rt.phase(), Phase::Running);
    rt.set_exit_code(1);
    assert_eq!(rt.phase(), Phase::Draining);
    rt.set_exit_code(2);
    assert_eq!(rt.exit_code(), Some(2));
    match rt.next_action(true) {
        Action::Finish(code) => assert_eq!(code, 2),
        _ => panic!("a draining runtime begins nothing"),
    }
}

#[test]
fn thread_ids_increase_in_assignment_order() {
    let mut ids = ThreadIdSource::new();
    let a = ids.next_id();
    let b = ids.next_id();
    let c = ids.next_id();
    assert_eq!(a.index(), 0);
    assert_eq!(b.index(), 1);
    assert_eq!(c.index(), 2);
    assert!(a.precedes(&b) && b.precedes(&c) && !c.precedes(&a) && !a.precedes(&a));
    assert!(a < b && b < c);
    assert_eq!(ids.count(), 3);
    assert_eq!(ThreadId::new(9).index(), 9);

    let mut rt = Rt::new();
    let x = rt.push_thread_front("x", 0);
    let y = rt.push_thread_back("y", 0);
    let z = rt.push_thread_front("z", 0);
    assert!(x.precedes(&y) && y.precedes(&z));
    assert_eq!(rt.issued_ids(), 3);
}

#[test]
fn queue_is_first_in_first_out() {
    let mut ids = ThreadIdSource::new();
    let mut queue: ThreadQueue<&str, u8> = ThreadQueue::new();
    assert!(queue.is_empty());
    assert!(queue.pop_front().is_none());
    let one = queue.push_item(&mut ids, "one", 1);
    let two = queue.push_item(&mut ids, "two", 2);
    assert_eq!(queue.len(), 2);
    let head = queue.pop_front().unwrap();
    assert_eq!((head.id, head.thread, head.args), (one, "one", 1));
    let three = queue.push_item(&mut ids, "three", 3);
    let rest = queue.drain_items();
    assert_eq!(rest.len(), 2);
    assert_eq!((rest[0].id, rest[0].thread), (two, "two"));
    assert_eq!((rest[1].id, rest[1].thread), (three, "three"));
    assert!(queue.is_empty());
}

#[test]
fn failed_conversion_is_returned_and_queues_nothing() {
    let mut ids = ThreadIdSource::new();
    let mut queue: ThreadQueue<&str, u8> = ThreadQueue::new();
    let failed: Result<&str, String> = Err("out of memory".to_string());
    match queue.push_converted(&mut ids, failed, 1) {
        Err(ConversionError { cause }) => assert_eq!(cause, "out of memory"),
        Ok(_) => panic!("the conversion failed"),
    }
    assert!(queue.is_empty());
    assert_eq!(ids.count(), 0);
    let fine: Result<&str, String> = Ok("t");
    let id = queue.push_converted(&mut ids, fine, 1).ok().unwrap();
    assert_eq!(id.index(), 0);
    assert_eq!(queue.len(), 1);

    let mut rt = Rt::new();
    let failed: Result<&'static str, String> = Err("bad chunk".to_string());
    assert!(rt.spawn_thread(failed, 0).is_err());
    let failed: Result<&'static str, String> = Err("bad chunk".to_string());
    assert!(rt.defer_thread(failed, 0).is_err());
    assert_eq!(rt.issued_ids(), 0);
    let a: Result<&'static str, String> = Ok("later");
    let b: Result<&'static str, String> = Ok("sooner");
    assert_eq!(rt.defer_thread(a, 0).ok().unwrap().index(), 0);
    assert_eq!(rt.spawn_thread(b, 0).ok().unwrap().index(), 1);
    let mut log = Vec::new();
    let mut polled = Vec::new();
    drive(&mut rt, &mut log, &mut polled);
    assert_eq!(log, vec!["sooner", "later"]);
}

#[test]
fn futures_queue_keeps_order() {
    let mut queue: FuturesQueue<u8> = FuturesQueue::new();
    assert!(queue.is_empty());
    queue.push_item(4);
    queue.push_item(2);
    assert_eq!(queue.len(), 2);
    assert_eq!(queue.drain_items(), vec![4, 2]);
    assert!(queue.is_empty());
    assert_eq!(queue.drain_items(), Vec::<u8>::new());
}

#[test]
fn thread_queued_during_the_drain_does_not_wait_for_the_executor() {
    let mut rt = Rt::new();
    assert!(!rt.has_queued_threads());
    rt.push_thread_back("D1", 0);
    assert!(rt.has_queued_threads());
    match rt.next_action(false) {
        Action::Resume(queued) => assert_eq!(queued.thread, "D1"),
        _ => panic!("the deferred thread must run"),
    }
    assert!(!rt.has_queued_threads());
    rt.push_thread_front("S1", 0);
    match rt.next_action(false) {
        Action::Poll(futures) => assert!(futures.is_empty()),
        _ => panic!("the tick must end"),
    }
    assert!(rt.has_queued_threads());
    match rt.next_action(false) {
        Action::Resume(queued) => assert_eq!(queued.thread, "S1"),
        _ => panic!("the queued thread must run without a wait"),
    }
    assert!(!rt.has_queued_threads());
}
