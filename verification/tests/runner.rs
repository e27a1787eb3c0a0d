use std::future::Future;
use std::rc::Rc;
use std::task::Context;
use std::task::Poll;
use std::task::Waker;

use yew_more_hooks::use_async;
use yew_more_hooks::use_async_with_options;
use yew_more_hooks::Launch;
use yew_more_hooks::UseAsyncHandle;
use yew_more_hooks::UseAsyncOptions;
use yew_more_hooks::UseAsyncState;
use yew_more_hooks::VersionAllocator;

/// Runs a future that never has to wait.
fn finish<F: Future>(future: F) -> F::Output {
    let mut future = Box::pin(future);
    let mut context = Context::from_waker(Waker::noop());
    match future.as_mut().poll(&mut context) {
        Poll::Ready(output) => output,
        Poll::Pending => panic!("the future is not ready"),
    }
}

async fn load(name: &'static str) -> Result<String, String> {
    Ok(format!("user/{name}"))
}

async fn fail(reason: &'static str) -> Result<String, String> {
    Err(reason.to_string())
}

/// Executes a launched task and reports its outcome.
fn complete<F>(handle: &mut UseAsyncHandle<F, String, String>, launch: Launch<F>)
where
    F: Future<Output = Result<String, String>>,
{
    let outcome = finish(launch.future);
    handle.resolve(launch.version, outcome);
}

#[test]
fn options_default_to_manual() {
    assert!(!UseAsyncOptions::default().auto);
    assert!(UseAsyncOptions::enable_auto().auto);
}

#[test]
fn new_runner_is_pending() {
    let handle = use_async(load("a"));
    assert!(matches!(&*handle, UseAsyncState::Pending));
    assert!(!handle.is_processing());
    assert_eq!(handle.data(), None);
    assert_eq!(handle.error(), None);
    assert_eq!(handle.inner().version, 0);
}

#[test]
fn processing_is_visible_right_after_run() {
    let mut ids = VersionAllocator::new();
    let mut handle = use_async(load("a"));

    let launch = handle.run(&mut ids);

    assert!(launch.is_some());
    assert!(matches!(&*handle, UseAsyncState::Processing));
    assert!(handle.is_processing());
}

#[test]
fn run_stamps_the_launch_with_a_fresh_version() {
    let mut ids = VersionAllocator::new();
    ids.allocate();
    ids.allocate();
    let mut handle = use_async(load("a"));

    let launch = handle.run(&mut ids).expect("the task is there");

    assert_eq!(launch.version, 2);
    assert_eq!(handle.inner().version, 2);
    assert_eq!(ids.peek(), 3);
}

#[test]
fn run_hands_out_the_captured_work() {
    let mut ids = VersionAllocator::new();
    let mut handle = use_async(load("jet"));

    let launch = handle.run(&mut ids).expect("the task is there");

    assert_eq!(finish(launch.future), Ok("user/jet".to_string()));
}

#[test]
fn resolved_task_is_ready_with_its_data() {
    let mut ids = VersionAllocator::new();
    let mut handle = use_async(load("jet"));

    let launch = handle.run(&mut ids).expect("the task is there");
    complete(&mut handle, launch);

    assert!(!handle.is_processing());
    assert_eq!(handle.data(), Some(&"user/jet".to_string()));
    assert_eq!(handle.error(), None);
}

#[test]
fn failed_task_is_ready_with_its_error() {
    let mut ids = VersionAllocator::new();
    let mut handle = use_async(fail("offline"));

    let launch = handle.run(&mut ids).expect("the task is there");
    complete(&mut handle, launch);

    assert!(matches!(&*handle, UseAsyncState::Ready(Err(_))));
    assert_eq!(handle.data(), None);
    assert_eq!(handle.error(), Some(&"offline".to_string()));
}

#[test]
fn second_run_of_a_consumed_task_is_a_no_op() {
    let mut ids = VersionAllocator::new();
    let mut handle = use_async(load("jet"));

    let launch = handle.run(&mut ids).expect("the task is there");
    complete(&mut handle, launch);
    let version = handle.inner().version;
    let next = ids.peek();

    assert!(handle.run(&mut ids).is_none());

    assert_eq!(handle.data(), Some(&"user/jet".to_string()));
    assert_eq!(handle.inner().version, version);
    assert_eq!(ids.peek(), next);
}

#[test]
fn second_run_while_in_flight_is_a_no_op() {
    let mut ids = VersionAllocator::new();
    let mut handle = use_async(load("jet"));

    let launch = handle.run(&mut ids).expect("the task is there");
    assert!(handle.run(&mut ids).is_none());
    assert!(handle.is_processing());
    assert_eq!(ids.peek(), 1);

    complete(&mut handle, launch);
    assert_eq!(handle.data(), Some(&"user/jet".to_string()));
}

#[test]
fn supplied_task_can_be_run_again() {
    let mut ids = VersionAllocator::new();
    let mut handle = use_async(load("first"));

    let launch = handle.run(&mut ids).expect("the task is there");
    complete(&mut handle, launch);
    assert_eq!(handle.data(), Some(&"user/first".to_string()));

    handle.supply(load("second"));
    // Supplying a task does not touch the state.
    assert_eq!(handle.data(), Some(&"user/first".to_string()));

    let launch = handle.run(&mut ids).expect("a task was supplied");
    assert_eq!(launch.version, 1);
    assert!(handle.is_processing());
    complete(&mut handle, launch);
    assert_eq!(handle.data(), Some(&"user/second".to_string()));
}

#[test]
fn rerun_supersedes_the_task_in_flight() {
    let mut ids = VersionAllocator::new();
    let mut handle = use_async(load("slow"));

    let slow = handle.run(&mut ids).expect("the task is there");
    handle.supply(load("quick"));
    let quick = handle.run(&mut ids).expect("a task was supplied");
    assert!(slow.version < quick.version);

    complete(&mut handle, quick);
    assert_eq!(handle.data(), Some(&"user/quick".to_string()));

    complete(&mut handle, slow);
    assert_eq!(handle.data(), Some(&"user/quick".to_string()));
}

#[test]
fn mount_runs_an_auto_runner_once() {
    let mut ids = VersionAllocator::new();
    let mut handle = use_async_with_options(load("auto"), UseAsyncOptions::enable_auto());
    assert!(matches!(&*handle, UseAsyncState::Pending));

    let launch = handle.mount(&mut ids).expect("auto runs on mount");
    assert_eq!(launch.version, 0);
    assert!(handle.is_processing());

    handle.supply(load("again"));
    assert!(handle.mount(&mut ids).is_none());
    assert_eq!(ids.peek(), 1);

    complete(&mut handle, launch);
    assert_eq!(handle.data(), Some(&"user/auto".to_string()));
}

#[test]
fn mount_leaves_a_manual_runner_alone() {
    let mut ids = VersionAllocator::new();
    let mut handle = use_async_with_options(load("manual"), UseAsyncOptions::default());

    assert!(handle.mount(&mut ids).is_none());

    assert!(matches!(&*handle, UseAsyncState::Pending));
    assert_eq!(ids.peek(), 0);
    // The task is still there for a manual run.
    assert!(handle.run(&mut ids).is_some());
}

#[test]
fn auto_and_manual_trigger_do_not_run_twice() {
    let mut ids = VersionAllocator::new();
    let mut handle = use_async_with_options(load("auto"), UseAsyncOptions::enable_auto());

    let launch = handle.mount(&mut ids);
    assert!(launch.is_some());
    assert!(handle.run(&mut ids).is_none());
    assert_eq!(ids.peek(), 1);
}

#[test]
fn update_is_ready_at_once() {
    let mut ids = VersionAllocator::new();
    let mut handle = use_async(load("a"));

    handle.update(&mut ids, "direct".to_string());

    assert!(!handle.is_processing());
    assert!(matches!(&*handle, UseAsyncState::Ready(Ok(_))));
    assert_eq!(handle.data(), Some(&"direct".to_string()));
    assert_eq!(handle.inner().version, 0);
    assert_eq!(ids.peek(), 1);
}

#[test]
fn update_supersedes_a_task_launched_before() {
    let mut ids = VersionAllocator::new();
    let mut handle = use_async(load("task"));

    let launch = handle.run(&mut ids).expect("the task is there");
    handle.update(&mut ids, "direct".to_string());
    assert_eq!(handle.data(), Some(&"direct".to_string()));

    complete(&mut handle, launch);
    assert_eq!(handle.data(), Some(&"direct".to_string()));
    assert_eq!(handle.inner().version, 1);
}

#[test]
fn task_launched_after_an_update_supersedes_it() {
    let mut ids = VersionAllocator::new();
    let mut handle = use_async(load("task"));

    handle.update(&mut ids, "direct".to_string());
    let launch = handle.run(&mut ids).expect("the task is there");
    assert!(handle.is_processing());

    complete(&mut handle, launch);
    assert_eq!(handle.data(), Some(&"user/task".to_string()));
}

#[test]
fn update_keeps_the_captured_task() {
    let mut ids = VersionAllocator::new();
    let mut handle = use_async(load("task"));

    handle.update(&mut ids, "direct".to_string());

    assert!(handle.run(&mut ids).is_some());
}

#[test]
fn runners_share_one_allocator() {
    let mut ids = VersionAllocator::new();
    let mut first = use_async(load("first"));
    let mut second = use_async(load("second"));

    let a = first.run(&mut ids).expect("the task is there");
    let b = second.run(&mut ids).expect("the task is there");

    assert_eq!((a.version, b.version), (0, 1));
    assert!(first.is_processing());
    assert!(second.is_processing());
}

#[test]
fn stale_outcome_is_discarded_whole() {
    let mut ids = VersionAllocator::new();
    let mut handle = use_async(load("a"));
    ids.allocate();
    handle.update(&mut ids, "newer".to_string());
    let before = Rc::clone(handle.inner());

    handle.resolve(0, Ok("older".to_string()));

    assert!(Rc::ptr_eq(handle.inner(), &before));
}

#[test]
fn handles_compare_by_outcome() {
    let mut ids = VersionAllocator::new();
    let mut first = use_async(load("same"));
    let mut second = use_async(load("same"));
    assert!(first == second);

    let a = first.run(&mut ids).expect("the task is there");
    assert!(first != second);

    let b = second.run(&mut ids).expect("the task is there");
    assert!(first == second);

    complete(&mut first, a);
    complete(&mut second, b);
    assert!(first == second);
    assert!(first.inner().version != second.inner().version);
}
