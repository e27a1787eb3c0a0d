//! The dependency-triggered task runner.
//!
//! The runner is handed a dependency value and a factory at every evaluation. It keeps the
//! dependency value it has last run a task for, and has a new task started exactly when
//! the value it is handed differs from that one. A task that is still in flight when the
//! dependency changes is not stopped: its outcome is published when it arrives, and is
//! discarded by the supersession rule once something newer has been published.

use std::future::Future;
use std::ops::Deref;
use std::rc::Rc;
use vstd::prelude::*;
use vstd::std_specs::cmp::PartialEqSpec;

use crate::allocator::following;
use crate::allocator::VersionAllocator;
use crate::runner::dispatch;
use crate::runner::run_task;
use crate::runner::Launch;
use crate::state::UseAsyncState;
use crate::versioned::AsyncStateVersion;

verus! {

/// The runner that [`use_async_with_deps`] works on: the state of the task, which the
/// runner derefs to, and the dependency value that the last task was started for.
pub struct UseAsyncHandleDeps<D, T, E> {
    inner: Rc<AsyncStateVersion<T, E>>,
    deps: Option<D>,
}

/// What a [`UseAsyncHandleDeps`] stands for.
pub struct UseAsyncDepsModel<D, T, E> {
    /// The content of the state container: the current outcome and its version.
    pub inner: AsyncStateVersion<T, E>,
    /// The dependency value that the last task was started for, if one was started.
    pub deps: Option<D>,
}

impl<D, T, E> View for UseAsyncHandleDeps<D, T, E> {
    type V = UseAsyncDepsModel<D, T, E>;

    closed spec fn view(&self) -> UseAsyncDepsModel<D, T, E> {
        UseAsyncDepsModel { inner: *self.inner, deps: self.deps }
    }
}

impl<D, T, E> UseAsyncDepsModel<D, T, E> {
    /// A runner that has not been evaluated yet: `Pending` under version 0, with no
    /// dependency value seen.
    pub open spec fn new() -> Self {
        UseAsyncDepsModel { inner: AsyncStateVersion::new(), deps: None }
    }

    /// The runner after `action` has been published to its container.
    pub open spec fn publish(self, action: AsyncStateVersion<T, E>) -> Self {
        UseAsyncDepsModel { inner: self.inner.apply(action), ..self }
    }

    /// The runner after a task was started for `deps`, with `version` the next version to
    /// allocate: `Processing` is published under `version`, and `deps` is the value seen
    /// last.
    pub open spec fn rerun(self, version: u64, deps: D) -> Self {
        UseAsyncDepsModel {
            deps: Some(deps),
            ..self.publish(AsyncStateVersion::processing(version))
        }
    }

    /// The runner after a direct update to `data`, with `version` the next version to
    /// allocate.
    pub open spec fn update(self, version: u64, data: T) -> Self {
        self.publish(AsyncStateVersion::ready(version, Ok(data)))
    }

    /// The runner after the task launched under `version` has resolved to `outcome`.
    pub open spec fn resolve(self, version: u64, outcome: Result<T, E>) -> Self {
        self.publish(AsyncStateVersion::ready(version, outcome))
    }

    /// Whether the runner is in step with an allocator whose next version is `next`:
    /// nothing in its container is newer than what that allocator hands out next. This
    /// holds of a runner and the allocator it is driven with for as long as the allocator
    /// has not wrapped around.
    pub open spec fn in_step(self, next: u64) -> bool {
        self.inner.version <= next
    }

    /// A runner stays in step with its allocator: through the start of a task and a
    /// direct update, each of which takes the next version, and through the completion of
    /// a task whose version the allocator handed out before.
    pub proof fn lemma_in_step_is_kept(
        self,
        next: u64,
        deps: D,
        data: T,
        launched: u64,
        outcome: Result<T, E>,
    )
        requires
            self.in_step(next),
            next < u64::MAX,
            launched < next,
        ensures
            self.rerun(next, deps).in_step(following(next)),
            self.update(next, data).in_step(following(next)),
            self.resolve(launched, outcome).in_step(next),
    {
    }

    /// `Pending` is left for good: once something was published, no step of the runner
    /// brings the state back to `Pending`.
    pub proof fn lemma_pending_is_not_restored(
        self,
        version: u64,
        deps: D,
        data: T,
        outcome: Result<T, E>,
    )
        requires
            !(self.inner.state is Pending),
        ensures
            !(self.rerun(version, deps).inner.state is Pending),
            !(self.update(version, data).inner.state is Pending),
            !(self.resolve(version, outcome).inner.state is Pending),
    {
    }

    /// Stale results are suppressed: a task that is in flight when the dependency changes
    /// is left to run, but once the task for the new value was launched, the outcome of
    /// the old one changes nothing, whenever it arrives.
    pub proof fn lemma_relaunch_outlasts_earlier_launch(
        self,
        next: u64,
        old_deps: D,
        new_deps: D,
        outcome: Result<T, E>,
    )
        requires
            self.in_step(next),
            next < u64::MAX,
        ensures
            ({
                let relaunched = self.rerun(next, old_deps).rerun(following(next), new_deps);
                &&& relaunched.inner == AsyncStateVersion::<T, E>::processing(following(next))
                &&& relaunched.resolve(next, outcome) == relaunched
            }),
    {
    }

    /// Direct update bypass: a direct update of a runner that is in step with its
    /// allocator shows `Ready(Ok(data))` at once, and the outcome of a task that was
    /// launched before the update, under a lower version, never replaces it.
    pub proof fn lemma_update_outlasts_earlier_launch(
        self,
        next: u64,
        data: T,
        launched: u64,
        outcome: Result<T, E>,
    )
        requires
            self.in_step(next),
            launched < next,
        ensures
            self.update(next, data).inner == AsyncStateVersion::<T, E>::ready(next, Ok(data)),
            self.update(next, data).resolve(launched, outcome) == self.update(next, data),
    {
    }
}

impl<D: PartialEq, T, E> UseAsyncDepsModel<D, T, E> {
    /// Whether `deps` is the dependency value that the last task was started for, by the
    /// equality of `D`.
    pub open spec fn observed(self, deps: D) -> bool {
        self.deps matches Some(seen) && deps.eq_spec(&seen)
    }

    /// The runner after one evaluation with `deps`, with `version` the next version to
    /// allocate: as it was where `deps` is the value seen last, else as a task started for
    /// `deps` leaves it.
    pub open spec fn evaluate(self, version: u64, deps: D) -> Self {
        if self.observed(deps) {
            self
        } else {
            self.rerun(version, deps)
        }
    }

    /// Equal dependency values launch once: where the equality of `D` is transitive, an
    /// evaluation with `deps` leaves a value seen last that every value `again` equal to
    /// `deps` is equal to, so that a second evaluation, with `again`, starts nothing and
    /// changes nothing.
    pub proof fn lemma_equal_deps_launch_once(self, first: u64, second: u64, deps: D, again: D)
        requires
            again.eq_spec(&deps),
            forall|x: D, y: D, z: D|
                #[trigger] x.eq_spec(&y) && #[trigger] y.eq_spec(&z) ==> x.eq_spec(&z),
        ensures
            self.evaluate(first, deps).observed(again),
            self.evaluate(first, deps).evaluate(second, again) == self.evaluate(first, deps),
    {
    }
}

impl<D, T, E> UseAsyncHandleDeps<D, T, E> {
    /// A runner that has not been evaluated yet: `Pending`, with no dependency value seen.
    pub fn new() -> (handle: Self)
        ensures
            handle@ == UseAsyncDepsModel::<D, T, E>::new(),
    {
        UseAsyncHandleDeps { inner: Rc::new(AsyncStateVersion::new()), deps: None }
    }

    /// Whether `deps` differs from the dependency value that the last task was started
    /// for. Before the first task, every value does.
    pub fn changed(&self, deps: &D) -> (changed: bool) where D: PartialEq
        ensures
            self@.deps is None ==> changed,
            self@.deps matches Some(seen) ==> call_ensures(D::ne, (deps, &seen), changed),
            D::obeys_eq_spec() ==> (changed <==> !self@.observed(*deps)),
    {
        match &self.deps {
            Some(seen) => deps.ne(seen),
            None => true,
        }
    }

    /// Starts a task for `deps`, whatever was seen before: has `factory` make the unit of
    /// work, allocates its version, publishes `Processing` under it, and remembers `deps`
    /// as the value seen last.
    pub fn rerun<F, Fut>(&mut self, ids: &mut VersionAllocator, factory: F, deps: D) -> (launch:
        Launch<Fut>) where F: FnOnce(&D) -> Fut, Fut: Future<Output = Result<T, E>>
        requires
            call_requires(factory, (&deps,)),
        ensures
            call_ensures(factory, (&deps,), launch.future),
            launch.version == old(ids)@,
            final(ids)@ == following(old(ids)@),
            final(self)@ == old(self)@.rerun(old(ids)@, deps),
            old(self)@.in_step(old(ids)@) ==> final(self)@.inner
                == AsyncStateVersion::<T, E>::processing(old(ids)@),
    {
        let future = factory(&deps);
        self.deps = Some(deps);
        run_task(future, &mut self.inner, ids)
    }

    /// Update `data` directly.
    ///
    /// Publishes `Ready(Ok(data))` under a freshly allocated version, without running a
    /// task.
    pub fn update(&mut self, ids: &mut VersionAllocator, data: T)
        ensures
            final(self)@ == old(self)@.update(old(ids)@, data),
            final(ids)@ == following(old(ids)@),
            old(self)@.in_step(old(ids)@) ==> final(self)@.inner
                == AsyncStateVersion::<T, E>::ready(old(ids)@, Ok(data)),
    {
        let version = ids.allocate();
        dispatch(&mut self.inner, AsyncStateVersion::ready(version, Ok(data)));
    }

    /// Reports that the task launched under `version` has resolved to `outcome`:
    /// publishes `Ready(outcome)` under that version. Where something newer was published
    /// in the meantime, the outcome is discarded.
    pub fn resolve(&mut self, version: u64, outcome: Result<T, E>)
        ensures
            final(self)@ == old(self)@.resolve(version, outcome),
            version < old(self)@.inner.version ==> final(self)@ == old(self)@,
    {
        dispatch(&mut self.inner, AsyncStateVersion::ready(version, outcome));
    }

    /// The content of the state container.
    pub fn inner(&self) -> (inner: &Rc<AsyncStateVersion<T, E>>)
        ensures
            **inner == self@.inner,
    {
        &self.inner
    }
}

impl<D, T, E> Deref for UseAsyncHandleDeps<D, T, E> {
    type Target = UseAsyncState<T, E>;

    fn deref(&self) -> (state: &Self::Target)
        ensures
            *state == self@.inner.state,
    {
        &self.inner.state
    }
}

impl<D, T: PartialEq, E: PartialEq> PartialEq for UseAsyncHandleDeps<D, T, E> {
    /// Compares the current outcomes.
    fn eq(&self, other: &Self) -> (equal: bool) {
        *self.inner == *other.inner
    }
}

impl<D, T: PartialEq, E: PartialEq> vstd::std_specs::cmp::PartialEqSpecImpl for UseAsyncHandleDeps<D, T, E> {
    open spec fn obeys_eq_spec() -> bool {
        T::obeys_eq_spec() && E::obeys_eq_spec()
    }

    /// Two handles are equal when their current outcomes are.
    open spec fn eq_spec(&self, other: &Self) -> bool {
        self@.inner.state.same_as(other@.inner.state)
    }
}

/// Runs the future provided by the function every time the dependencies change.
///
/// This is one evaluation of the runner `handle`, to be made whenever the component is
/// rendered. Where `deps` differs from the value seen at the last run, or nothing has run
/// yet, `f` makes the unit of work for `deps` and the task to start is returned. Where
/// `deps` is equal to the value seen last, nothing is started and nothing changes, and
/// `f` is dropped.
///
/// See [`use_async_with_cloned_deps`] when your dependencies can be cloned.
pub fn use_async_with_deps<F, T, E, D, Fut>(
    f: F,
    deps: D,
    handle: &mut UseAsyncHandleDeps<D, T, E>,
    ids: &mut VersionAllocator,
) -> (launch: Option<Launch<Fut>>) where
    F: FnOnce(&D) -> Fut,
    Fut: Future<Output = Result<T, E>>,
    D: PartialEq,

    requires
        call_requires(f, (&deps,)),
    ensures
        old(handle)@.deps is None ==> launch is Some,
        old(handle)@.deps matches Some(seen) ==> call_ensures(
            D::ne,
            (&deps, &seen),
            launch is Some,
        ),
        D::obeys_eq_spec() ==> (launch is None <==> old(handle)@.observed(deps)),
        match launch {
            Some(launch) => {
                &&& call_ensures(f, (&deps,), launch.future)
                &&& launch.version == old(ids)@
                &&& final(ids)@ == following(old(ids)@)
                &&& final(handle)@ == old(handle)@.rerun(old(ids)@, deps)
            },
            None => final(handle)@ == old(handle)@ && final(ids)@ == old(ids)@,
        },
        D::obeys_eq_spec() ==> final(handle)@ == old(handle)@.evaluate(old(ids)@, deps),
        launch is Some && old(handle)@.in_step(old(ids)@) ==> final(handle)@.inner
            == AsyncStateVersion::<T, E>::processing(old(ids)@),
{
    if handle.changed(&deps) {
        Some(handle.rerun(ids, f, deps))
    } else {
        None
    }
}

/// Runs the future provided by the function every time the dependencies change.
///
/// Compared to [`use_async_with_deps`] it requires the dependencies to implement [`Clone`] and
/// will pass cloned dependencies on to the function creating the future, possibly removing one
/// step on the provided code.
pub fn use_async_with_cloned_deps<F, T, E, D, Fut>(
    f: F,
    deps: D,
    handle: &mut UseAsyncHandleDeps<D, T, E>,
    ids: &mut VersionAllocator,
) -> (launch: Option<Launch<Fut>>) where
    F: FnOnce(D) -> Fut,
    Fut: Future<Output = Result<T, E>>,
    D: Clone + PartialEq,

    requires
        forall|copy: D| cloned::<D>(deps, copy) ==> call_requires(f, (copy,)),
    ensures
        old(handle)@.deps is None ==> launch is Some,
        old(handle)@.deps matches Some(seen) ==> call_ensures(
            D::ne,
            (&deps, &seen),
            launch is Some,
        ),
        D::obeys_eq_spec() ==> (launch is None <==> old(handle)@.observed(deps)),
        match launch {
            Some(launch) => {
                &&& exists|copy: D|
                    cloned::<D>(deps, copy) && call_ensures(f, (copy,), launch.future)
                &&& launch.version == old(ids)@
                &&& final(ids)@ == following(old(ids)@)
                &&& final(handle)@ == old(handle)@.rerun(old(ids)@, deps)
            },
            None => final(handle)@ == old(handle)@ && final(ids)@ == old(ids)@,
        },
        D::obeys_eq_spec() ==> final(handle)@ == old(handle)@.evaluate(old(ids)@, deps),
        launch is Some && old(handle)@.in_step(old(ids)@) ==> final(handle)@.inner
            == AsyncStateVersion::<T, E>::processing(old(ids)@),
{
    let factory = |deps: &D| -> (future: Fut)
        requires
            forall|copy: D| cloned::<D>(*deps, copy) ==> call_requires(f, (copy,)),
        ensures
            exists|copy: D| cloned::<D>(*deps, copy) && call_ensures(f, (copy,), future),
        {
            let copy = deps.clone();
            assert(cloned::<D>(*deps, copy));
            f(copy)
        };
    use_async_with_deps(factory, deps, handle, ids)
}

} // verus!
