use std::rc::Rc;

use yew_more_hooks::AsyncStateVersion;
use yew_more_hooks::UseAsyncState;
use yew_more_hooks::VersionAllocator;

type Versioned = AsyncStateVersion<&'static str, &'static str>;

fn publish_all(initial: Versioned, actions: Vec<Versioned>) -> Rc<Versioned> {
    let mut stored = Rc::new(initial);
    for action in actions {
        stored = stored.reduce(action);
    }
    stored
}

fn labelled(version: u64) -> Versioned {
    let label = match version {
        1 => "one",
        2 => "two",
        3 => "three",
        _ => "other",
    };
    AsyncStateVersion::ready(version, Ok(label))
}

#[test]
fn allocator_counts_up_from_zero() {
    let mut ids = VersionAllocator::new();
    assert_eq!(ids.peek(), 0);
    assert_eq!(ids.allocate(), 0);
    assert_eq!(ids.allocate(), 1);
    assert_eq!(ids.allocate(), 2);
    assert_eq!(ids.peek(), 3);
    assert_eq!(ids.peek(), 3);
}

#[test]
fn default_allocator_starts_at_zero() {
    let mut ids = VersionAllocator::default();
    assert_eq!(ids.allocate(), 0);
    assert_eq!(ids.peek(), 1);
}

#[test]
fn out_of_order_resolution_keeps_the_later_launch() {
    // Task A is launched first and resolves slowly, task B is launched second and
    // resolves quickly.
    let mut ids = VersionAllocator::new();
    let _mount = ids.allocate();
    let a = ids.allocate();
    let b = ids.allocate();
    assert_eq!((a, b), (1, 2));

    let stored: Rc<Versioned> = Rc::new(AsyncStateVersion::new());
    let stored = stored.reduce(AsyncStateVersion::processing(a));
    let stored = stored.reduce(AsyncStateVersion::processing(b));
    assert!(stored.is_processing());

    let stored = stored.reduce(AsyncStateVersion::ready(b, Ok("B")));
    assert!(matches!(stored.state, UseAsyncState::Ready(Ok("B"))));

    let stored = stored.reduce(AsyncStateVersion::ready(a, Ok("A")));
    assert!(matches!(stored.state, UseAsyncState::Ready(Ok("B"))));
    assert_eq!(stored.version, 2);
}

#[test]
fn in_order_resolution_shows_each_result_in_turn() {
    let stored: Rc<Versioned> = Rc::new(AsyncStateVersion::new());
    let stored = stored.reduce(AsyncStateVersion::processing(1));
    let stored = stored.reduce(AsyncStateVersion::processing(2));
    let stored = stored.reduce(AsyncStateVersion::ready(1, Ok("A")));
    // The older task is superseded already: its result never shows.
    assert!(stored.is_processing());
    let stored = stored.reduce(AsyncStateVersion::ready(2, Ok("B")));
    assert!(matches!(stored.state, UseAsyncState::Ready(Ok("B"))));
}

#[test]
fn every_order_ends_with_the_highest_version() {
    let orders: Vec<[u64; 3]> =
        vec![[1, 2, 3], [1, 3, 2], [2, 1, 3], [2, 3, 1], [3, 1, 2], [3, 2, 1]];
    for order in orders {
        let actions: Vec<Versioned> = order.iter().map(|version| labelled(*version)).collect();
        let stored = publish_all(AsyncStateVersion::new(), actions);
        assert_eq!(stored.version, 3);
        assert!(matches!(stored.state, UseAsyncState::Ready(Ok("three"))));
    }
}

#[test]
fn stored_version_never_decreases() {
    let versions: Vec<u64> = vec![4, 1, 7, 7, 3, 9, 2, 8];
    let mut stored: Rc<Versioned> = Rc::new(AsyncStateVersion::new());
    let mut highest = 0;
    for version in versions {
        stored = stored.reduce(labelled(version));
        if version > highest {
            highest = version;
        }
        assert_eq!(stored.version, highest);
    }
    assert_eq!(stored.version, 9);
}

#[test]
fn stale_actions_leave_the_stored_value() {
    let initial: Versioned = AsyncStateVersion::ready(5, Ok("kept"));
    let stored = publish_all(initial, vec![labelled(1), labelled(4), labelled(3)]);
    assert_eq!(stored.version, 5);
    assert!(matches!(stored.state, UseAsyncState::Ready(Ok("kept"))));
}

#[test]
fn of_two_actions_with_one_version_the_later_one_stays() {
    let stored = publish_all(
        AsyncStateVersion::new(),
        vec![AsyncStateVersion::processing(1), AsyncStateVersion::ready(1, Ok("done"))],
    );
    assert!(matches!(stored.state, UseAsyncState::Ready(Ok("done"))));

    let stored = publish_all(
        AsyncStateVersion::new(),
        vec![AsyncStateVersion::ready(1, Ok("done")), AsyncStateVersion::processing(1)],
    );
    assert!(stored.is_processing());
}

#[test]
fn repeating_an_action_changes_nothing() {
    let once = publish_all(AsyncStateVersion::new(), vec![labelled(2), labelled(1)]);
    let twice =
        publish_all(AsyncStateVersion::new(), vec![labelled(1), labelled(2), labelled(1), labelled(2)]);
    assert_eq!(once.version, twice.version);
    assert!(once.state == twice.state);
}
