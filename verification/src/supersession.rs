//! What the supersession rule guarantees over a whole history of publications: the
//! container converges to the most recently launched result, whatever the order in which
//! the results arrive.

use vstd::prelude::*;

use crate::versioned::AsyncStateVersion;

verus! {

/// The stored value after every element of `actions` has been published over `initial`,
/// first to last.
pub open spec fn apply_all<T, E>(
    initial: AsyncStateVersion<T, E>,
    actions: Seq<AsyncStateVersion<T, E>>,
) -> AsyncStateVersion<T, E>
    decreases actions.len(),
{
    if actions.len() == 0 {
        initial
    } else {
        apply_all(initial, actions.drop_last()).apply(actions.last())
    }
}

/// The highest version among `floor` and the versions of `actions`.
pub open spec fn highest_version<T, E>(floor: u64, actions: Seq<AsyncStateVersion<T, E>>) -> u64
    decreases actions.len(),
{
    if actions.len() == 0 {
        floor
    } else {
        let before = highest_version(floor, actions.drop_last());
        if actions.last().version >= before {
            actions.last().version
        } else {
            before
        }
    }
}

/// Whether the version of an action of `actions` tells which action it is: two actions
/// with the same version are the same action.
pub open spec fn versions_identify<T, E>(actions: Seq<AsyncStateVersion<T, E>>) -> bool {
    forall|i: int, j: int|
        0 <= i < actions.len() && 0 <= j < actions.len() && actions[i].version
            == actions[j].version ==> actions[i] == actions[j]
}

/// Of two publications the newer one stays, whichever arrives first: where `newer` has a
/// higher version than `older` and is not older than what is stored, the container holds
/// `newer` once both have been published, in either order.
pub proof fn lemma_newer_outlasts_older<T, E>(
    stored: AsyncStateVersion<T, E>,
    older: AsyncStateVersion<T, E>,
    newer: AsyncStateVersion<T, E>,
)
    requires
        older.version < newer.version,
        stored.version <= newer.version,
    ensures
        stored.apply(older).apply(newer) == newer,
        stored.apply(newer).apply(older) == newer,
{
}

/// `highest_version` is the maximum: it bounds `floor` and every version in `actions`, and
/// it is one of them.
pub proof fn lemma_highest_version_is_maximum<T, E>(
    floor: u64,
    actions: Seq<AsyncStateVersion<T, E>>,
)
    ensures
        highest_version(floor, actions) >= floor,
        forall|i: int|
            0 <= i < actions.len() ==> (#[trigger] actions[i]).version <= highest_version(
                floor,
                actions,
            ),
        highest_version(floor, actions) == floor || exists|i: int|
            0 <= i < actions.len() && (#[trigger] actions[i]).version == highest_version(
                floor,
                actions,
            ),
    decreases actions.len(),
{
    if actions.len() > 0 {
        let front = actions.drop_last();
        lemma_highest_version_is_maximum(floor, front);
        assert forall|i: int| 0 <= i < actions.len() implies (#[trigger] actions[i]).version
            <= highest_version(floor, actions) by {
            if i < front.len() {
                assert(front[i] == actions[i]);
            }
        }
        if highest_version(floor, actions) != floor {
            if actions.last().version >= highest_version(floor, front) {
                assert(actions[actions.len() - 1].version == highest_version(floor, actions));
            } else {
                let i = choose|i: int|
                    0 <= i < front.len() && (#[trigger] front[i]).version == highest_version(
                        floor,
                        front,
                    );
                assert(actions[i].version == highest_version(floor, actions));
            }
        }
    }
}

/// Monotonic supersession, the version: after any sequence of publications the stored
/// version is the highest of the version stored at first and the versions published,
/// whatever their order.
pub proof fn lemma_final_version_is_highest<T, E>(
    initial: AsyncStateVersion<T, E>,
    actions: Seq<AsyncStateVersion<T, E>>,
)
    ensures
        apply_all(initial, actions).version == highest_version(initial.version, actions),
    decreases actions.len(),
{
    if actions.len() > 0 {
        lemma_final_version_is_highest(initial, actions.drop_last());
    }
}

/// Monotonic supersession, the outcome: where `actions[winner]` has the highest version
/// published, is not older than what was stored at first, and nothing published after it
/// has the same version, it is what the container holds in the end.
pub proof fn lemma_latest_highest_wins<T, E>(
    initial: AsyncStateVersion<T, E>,
    actions: Seq<AsyncStateVersion<T, E>>,
    winner: int,
)
    requires
        0 <= winner < actions.len(),
        initial.version <= actions[winner].version,
        forall|i: int|
            0 <= i < actions.len() ==> (#[trigger] actions[i]).version <= actions[winner].version,
        forall|i: int|
            winner < i < actions.len() ==> (#[trigger] actions[i]).version
                < actions[winner].version,
    ensures
        apply_all(initial, actions) == actions[winner],
    decreases actions.len(),
{
    let front = actions.drop_last();
    if winner < actions.len() - 1 {
        assert(front[winner] == actions[winner]);
        assert forall|i: int| 0 <= i < front.len() implies (#[trigger] front[i]).version
            <= front[winner].version by {
            assert(front[i] == actions[i]);
        }
        assert forall|i: int| winner < i < front.len() implies (#[trigger] front[i]).version
            < front[winner].version by {
            assert(front[i] == actions[i]);
        }
        lemma_latest_highest_wins(initial, front, winner);
        assert(actions[actions.len() - 1].version < actions[winner].version);
    } else {
        lemma_final_version_is_highest(initial, front);
        lemma_highest_version_is_maximum(initial.version, front);
        if highest_version(initial.version, front) != initial.version {
            let i = choose|i: int|
                0 <= i < front.len() && (#[trigger] front[i]).version == highest_version(
                    initial.version,
                    front,
                );
            assert(front[i] == actions[i]);
        }
    }
}

/// Stale results are discarded: where every action is older than what is stored, the
/// container holds in the end what it held at first.
pub proof fn lemma_stale_actions_are_discarded<T, E>(
    initial: AsyncStateVersion<T, E>,
    actions: Seq<AsyncStateVersion<T, E>>,
)
    requires
        forall|i: int| 0 <= i < actions.len() ==> (#[trigger] actions[i]).version < initial.version,
    ensures
        apply_all(initial, actions) == initial,
    decreases actions.len(),
{
    if actions.len() > 0 {
        let front = actions.drop_last();
        assert forall|i: int| 0 <= i < front.len() implies (#[trigger] front[i]).version
            < initial.version by {
            assert(front[i] == actions[i]);
        }
        lemma_stale_actions_are_discarded(initial, front);
        assert(actions[actions.len() - 1].version < initial.version);
    }
}

/// The container holds in the end either what it held at first, and then every action
/// was older than that, or one of the actions, and then no action is newer than that
/// one.
pub proof fn lemma_final_value_was_published<T, E>(
    initial: AsyncStateVersion<T, E>,
    actions: Seq<AsyncStateVersion<T, E>>,
) -> (winner: int)
    ensures
        forall|i: int|
            0 <= i < actions.len() ==> (#[trigger] actions[i]).version <= apply_all(
                initial,
                actions,
            ).version,
        winner == -1 ==> apply_all(initial, actions) == initial && forall|i: int|
            0 <= i < actions.len() ==> (#[trigger] actions[i]).version < initial.version,
        winner != -1 ==> 0 <= winner < actions.len() && apply_all(initial, actions)
            == actions[winner] && initial.version <= actions[winner].version,
    decreases actions.len(),
{
    if actions.len() == 0 {
        -1
    } else {
        let front = actions.drop_last();
        let before = lemma_final_value_was_published(initial, front);
        assert forall|i: int| 0 <= i < actions.len() implies (#[trigger] actions[i]).version
            <= apply_all(initial, actions).version by {
            if i < front.len() {
                assert(front[i] == actions[i]);
            }
        }
        if actions.last().version >= apply_all(initial, front).version {
            actions.len() - 1
        } else {
            if before == -1 {
                assert forall|i: int| 0 <= i < actions.len() implies (
                #[trigger] actions[i]).version < initial.version by {
                    if i < front.len() {
                        assert(front[i] == actions[i]);
                    }
                }
            } else {
                assert(front[before] == actions[before]);
            }
            before
        }
    }
}

/// Monotonic supersession, the order: two histories that publish the same actions, each
/// action under a version of its own, leave the same value in the container, whatever the
/// order in which each of them publishes, and however often it repeats an action.
pub proof fn lemma_order_is_irrelevant<T, E>(
    initial: AsyncStateVersion<T, E>,
    first: Seq<AsyncStateVersion<T, E>>,
    second: Seq<AsyncStateVersion<T, E>>,
)
    requires
        versions_identify(first),
        forall|action: AsyncStateVersion<T, E>|
            first.contains(action) <==> second.contains(action),
    ensures
        apply_all(initial, first) == apply_all(initial, second),
{
    let a = lemma_final_value_was_published(initial, first);
    let b = lemma_final_value_was_published(initial, second);
    if a == -1 {
        if b != -1 {
            assert(second.contains(second[b]));
            let i = choose|i: int| 0 <= i < first.len() && first[i] == second[b];
            assert(first[i].version < initial.version);
        }
    } else {
        assert(first.contains(first[a]));
        let j = choose|j: int| 0 <= j < second.len() && second[j] == first[a];
        assert(second[j].version >= initial.version);
        assert(b != -1);
        assert(second.contains(second[b]));
        let i = choose|i: int| 0 <= i < first.len() && first[i] == second[b];
        assert(first[i].version <= first[a].version);
        assert(second[j].version <= second[b].version);
        assert(first[i] == first[a]);
    }
}

} // verus!
