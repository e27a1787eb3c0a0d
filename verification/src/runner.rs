//! The manually triggered task runner.
//!
//! A runner owns the state container of one component and the unit of work captured for
//! it. It decides, for each event of the component's life (mount, a manual trigger, the
//! completion of a task, a direct update), what the container holds afterwards and whether
//! a task has to be started. Starting the task and waiting for it is left to the caller,
//! who reports the outcome back with [`UseAsyncHandle::resolve`].

use std::future::Future;
use std::ops::Deref;
use std::rc::Rc;
use vstd::prelude::*;
use vstd::std_specs::cmp::PartialEqSpec;

use crate::allocator::following;
use crate::allocator::VersionAllocator;
use crate::state::UseAsyncState;
use crate::versioned::AsyncStateVersion;

verus! {

/// Options for [`use_async_with_options`].
pub struct UseAsyncOptions {
    pub auto: bool,
}

impl UseAsyncOptions {
    /// Automatically run when mounted
    pub fn enable_auto() -> (options: Self)
        ensures
            options.auto,
    {
        Self { auto: true }
    }
}

impl Default for UseAsyncOptions {
    fn default() -> (options: Self)
        ensures
            !options.auto,
    {
        Self { auto: false }
    }
}

/// A task that has to be started: the unit of work, and the version that its outcome is
/// to be published under.
pub struct Launch<F> {
    pub future: F,
    pub version: u64,
}

/// Publishes `action` to the container `inner`, by the supersession rule.
pub(crate) fn dispatch<T, E>(inner: &mut Rc<AsyncStateVersion<T, E>>, action: AsyncStateVersion<T, E>)
    ensures
        **final(inner) == (**old(inner)).apply(action),
{
    if inner.accepts(&action) {
        *inner = Rc::new(action);
    }
}

/// Launches `future`: allocates its version and publishes `Processing` under it. The
/// outcome is to be published later, under the version of the launch that is returned.
pub(crate) fn run_task<F, T, E>(
    future: F,
    inner: &mut Rc<AsyncStateVersion<T, E>>,
    ids: &mut VersionAllocator,
) -> (launch: Launch<F>)
    ensures
        launch == (Launch { future, version: old(ids)@ }),
        final(ids)@ == following(old(ids)@),
        **final(inner) == (**old(inner)).apply(AsyncStateVersion::processing(old(ids)@)),
{
    // fetch and increment (we get the current value)
    let version = ids.allocate();

    // Set state to processing
    dispatch(inner, AsyncStateVersion::processing(version));

    Launch { future, version }
}

/// The runner made by [`use_async`]: the state of the task, which the runner derefs to,
/// and the unit of work captured for the next run.
pub struct UseAsyncHandle<F, T, E> {
    inner: Rc<AsyncStateVersion<T, E>>,
    future: Option<F>,
    auto: bool,
    mounted: bool,
}

/// What a [`UseAsyncHandle`] stands for, with the steps it takes as functions from one
/// value to the next.
pub struct UseAsyncModel<F, T, E> {
    /// The content of the state container: the current outcome and its version.
    pub inner: AsyncStateVersion<T, E>,
    /// The captured unit of work, until it is taken out to be run.
    pub future: Option<F>,
    /// Whether mounting the component runs the task.
    pub auto: bool,
    /// Whether the component has been mounted.
    pub mounted: bool,
}

impl<F, T, E> View for UseAsyncHandle<F, T, E> {
    type V = UseAsyncModel<F, T, E>;

    closed spec fn view(&self) -> UseAsyncModel<F, T, E> {
        UseAsyncModel {
            inner: *self.inner,
            future: self.future,
            auto: self.auto,
            mounted: self.mounted,
        }
    }
}

impl<F, T, E> UseAsyncModel<F, T, E> {
    /// A runner as it is made: `Pending` under version 0, with `future` captured, not
    /// mounted yet.
    pub open spec fn new(future: F, auto: bool) -> Self {
        UseAsyncModel {
            inner: AsyncStateVersion::new(),
            future: Some(future),
            auto,
            mounted: false,
        }
    }

    /// The runner after `action` has been published to its container.
    pub open spec fn publish(self, action: AsyncStateVersion<T, E>) -> Self {
        UseAsyncModel { inner: self.inner.apply(action), ..self }
    }

    /// The task that a trigger starts, with `version` the next version to allocate: the
    /// captured unit of work under `version`, or none where the unit was taken out before.
    pub open spec fn launch(self, version: u64) -> Option<Launch<F>> {
        match self.future {
            Some(future) => Some(Launch { future, version }),
            None => None,
        }
    }

    /// The runner after a trigger, with `version` the next version to allocate. Where a
    /// unit of work is captured, it is taken out and `Processing` is published under
    /// `version`. Where none is, the runner stays as it is.
    pub open spec fn run(self, version: u64) -> Self {
        if self.future is Some {
            UseAsyncModel { future: None, ..self.publish(AsyncStateVersion::processing(version)) }
        } else {
            self
        }
    }

    /// Whether mounting triggers a run: it does the first time, where the runner was made
    /// with the `auto` option.
    pub open spec fn runs_on_mount(self) -> bool {
        self.auto && !self.mounted
    }

    /// The runner after the component was mounted, with `version` the next version to
    /// allocate.
    pub open spec fn mount(self, version: u64) -> Self {
        UseAsyncModel {
            mounted: true,
            ..if self.runs_on_mount() {
                self.run(version)
            } else {
                self
            }
        }
    }

    /// The runner after `future` was captured for its next run.
    pub open spec fn supply(self, future: F) -> Self {
        UseAsyncModel { future: Some(future), ..self }
    }

    /// The runner after a direct update to `data`, with `version` the next version to
    /// allocate.
    pub open spec fn update(self, version: u64, data: T) -> Self {
        self.publish(AsyncStateVersion::ready(version, Ok(data)))
    }

    /// The runner after the task launched under `version` has resolved to `outcome`.
    pub open spec fn resolve(self, version: u64, outcome: Result<T, E>) -> Self {
        self.publish(AsyncStateVersion::ready(version, outcome))
    }

    /// Whether the runner is in step with an allocator whose next version is `next`:
    /// nothing in its container is newer than what that allocator hands out next. This
    /// holds of a runner and the allocator it is driven with for as long as the allocator
    /// has not wrapped around.
    pub open spec fn in_step(self, next: u64) -> bool {
        self.inner.version <= next
    }

    /// A runner stays in step with its allocator: through a trigger, a mount and a direct
    /// update, each of which may take the next version, through the capture of a unit of
    /// work, and through the completion of a task whose version the allocator handed out
    /// before.
    pub proof fn lemma_in_step_is_kept(
        self,
        next: u64,
        future: F,
        data: T,
        launched: u64,
        outcome: Result<T, E>,
    )
        requires
            self.in_step(next),
            next < u64::MAX,
            launched < next,
        ensures
            self.run(next).in_step(following(next)),
            self.mount(next).in_step(following(next)),
            self.update(next, data).in_step(following(next)),
            self.supply(future).in_step(next),
            self.resolve(launched, outcome).in_step(next),
    {
    }

    /// `Pending` is left for good: once something was published, no step of the runner
    /// brings the state back to `Pending`.
    pub proof fn lemma_pending_is_not_restored(
        self,
        version: u64,
        future: F,
        data: T,
        outcome: Result<T, E>,
    )
        requires
            !(self.inner.state is Pending),
        ensures
            !(self.run(version).inner.state is Pending),
            !(self.mount(version).inner.state is Pending),
            !(self.supply(future).inner.state is Pending),
            !(self.update(version, data).inner.state is Pending),
            !(self.resolve(version, outcome).inner.state is Pending),
    {
    }

    /// Single use: once the captured unit of work was taken out by a run, a second
    /// trigger starts nothing and changes nothing, whether it comes while the task is in
    /// flight or after the task has resolved. The outcome remains whatever the first run
    /// produced.
    pub proof fn lemma_second_run_is_a_no_op(
        self,
        first: u64,
        second: u64,
        outcome: Result<T, E>,
    )
        ensures
            self.run(first).launch(second) is None,
            self.run(first).run(second) == self.run(first),
            self.run(first).resolve(first, outcome).launch(second) is None,
            self.run(first).resolve(first, outcome).run(second) == self.run(first).resolve(
                first,
                outcome,
            ),
    {
    }

    /// Mounting runs the task at most once: a second mount starts nothing and changes
    /// nothing, even where a unit of work was captured in between.
    pub proof fn lemma_second_mount_is_a_no_op(self, first: u64, second: u64, future: F)
        ensures
            !self.mount(first).runs_on_mount(),
            self.mount(first).mount(second) == self.mount(first),
            self.mount(first).supply(future).mount(second) == self.mount(first).supply(future),
    {
    }

    /// Stale results are suppressed: once a newer task was launched, the outcome of the
    /// task launched before it changes nothing, whenever it arrives.
    pub proof fn lemma_relaunch_outlasts_earlier_launch(
        self,
        next: u64,
        future: F,
        outcome: Result<T, E>,
    )
        requires
            self.future is Some,
            self.in_step(next),
            next < u64::MAX,
        ensures
            ({
                let relaunched = self.run(next).supply(future).run(following(next));
                &&& relaunched.inner == AsyncStateVersion::<T, E>::processing(following(next))
                &&& relaunched.resolve(next, outcome) == relaunched
            }),
    {
    }

    /// Direct update bypass: a direct update of a runner that is in step with its
    /// allocator shows `Ready(Ok(data))` at once, and the outcome of a task that was
    /// launched before the update, under a lower version, never replaces it.
    pub proof fn lemma_update_outlasts_earlier_launch(
        self,
        next: u64,
        data: T,
        launched: u64,
        outcome: Result<T, E>,
    )
        requires
            self.in_step(next),
            launched < next,
        ensures
            self.update(next, data).inner == AsyncStateVersion::<T, E>::ready(next, Ok(data)),
            self.update(next, data).resolve(launched, outcome) == self.update(next, data),
    {
    }
}

impl<F, T, E> UseAsyncHandle<F, T, E> {
    /// Start to resolve the async future to a final value.
    ///
    /// Takes the captured unit of work out of the runner. Where there is one, a version is
    /// allocated for it, `Processing` is published under that version, and the task to
    /// start is returned: the caller executes its unit of work and reports the outcome
    /// with [`Self::resolve`]. Where the unit was taken out before and none was supplied
    /// since, nothing happens.
    pub fn run(&mut self, ids: &mut VersionAllocator) -> (launch: Option<Launch<F>>)
        ensures
            final(self)@ == old(self)@.run(old(ids)@),
            launch == old(self)@.launch(old(ids)@),
            final(ids)@ == if launch is Some {
                following(old(ids)@)
            } else {
                old(ids)@
            },
            launch is Some && old(self)@.in_step(old(ids)@) ==> final(self)@.inner
                == AsyncStateVersion::<T, E>::processing(old(ids)@),
    {
        let future = self.future.take();

        if let Some(future) = future {
            Some(run_task(future, &mut self.inner, ids))
        } else {
            None
        }
    }

    /// Tells the runner that the owning component has been attached. The first time, this
    /// runs the task if the runner was made with the `auto` option. Otherwise, and every
    /// time after the first, it starts nothing.
    pub fn mount(&mut self, ids: &mut VersionAllocator) -> (launch: Option<Launch<F>>)
        ensures
            final(self)@ == old(self)@.mount(old(ids)@),
            launch == if old(self)@.runs_on_mount() {
                old(self)@.launch(old(ids)@)
            } else {
                None
            },
            final(ids)@ == if launch is Some {
                following(old(ids)@)
            } else {
                old(ids)@
            },
            launch is Some && old(self)@.in_step(old(ids)@) ==> final(self)@.inner
                == AsyncStateVersion::<T, E>::processing(old(ids)@),
    {
        let first = !self.mounted;
        self.mounted = true;
        if first && self.auto {
            self.run(ids)
        } else {
            None
        }
    }

    /// Captures `future` as the unit of work that the next run executes, in place of the
    /// one captured before, if that is still there.
    pub fn supply(&mut self, future: F)
        ensures
            final(self)@ == old(self)@.supply(future),
    {
        self.future = Some(future);
    }

    /// Update `data` directly.
    ///
    /// Publishes `Ready(Ok(data))` under a freshly allocated version, without running a
    /// task.
    pub fn update(&mut self, ids: &mut VersionAllocator, data: T)
        ensures
            final(self)@ == old(self)@.update(old(ids)@, data),
            final(ids)@ == following(old(ids)@),
            old(self)@.in_step(old(ids)@) ==> final(self)@.inner
                == AsyncStateVersion::<T, E>::ready(old(ids)@, Ok(data)),
    {
        let version = ids.allocate();
        dispatch(&mut self.inner, AsyncStateVersion::ready(version, Ok(data)));
    }

    /// Reports that the task launched under `version` has resolved to `outcome`:
    /// publishes `Ready(outcome)` under that version. Where something newer was published
    /// in the meantime, the outcome is discarded.
    pub fn resolve(&mut self, version: u64, outcome: Result<T, E>)
        ensures
            final(self)@ == old(self)@.resolve(version, outcome),
            version < old(self)@.inner.version ==> final(self)@ == old(self)@,
    {
        dispatch(&mut self.inner, AsyncStateVersion::ready(version, outcome));
    }

    /// The content of the state container.
    pub fn inner(&self) -> (inner: &Rc<AsyncStateVersion<T, E>>)
        ensures
            **inner == self@.inner,
    {
        &self.inner
    }
}

impl<F, T, E> Deref for UseAsyncHandle<F, T, E> {
    type Target = UseAsyncState<T, E>;

    fn deref(&self) -> (state: &Self::Target)
        ensures
            *state == self@.inner.state,
    {
        &self.inner.state
    }
}

impl<F, T: PartialEq, E: PartialEq> PartialEq for UseAsyncHandle<F, T, E> {
    /// Compares the current outcomes.
    fn eq(&self, other: &Self) -> (equal: bool) {
        *self.inner == *other.inner
    }
}

impl<F, T: PartialEq, E: PartialEq> vstd::std_specs::cmp::PartialEqSpecImpl for UseAsyncHandle<F, T, E> {
    open spec fn obeys_eq_spec() -> bool {
        T::obeys_eq_spec() && E::obeys_eq_spec()
    }

    /// Two handles are equal when their current outcomes are.
    open spec fn eq_spec(&self, other: &Self) -> bool {
        self@.inner.state.same_as(other@.inner.state)
    }
}

/// Makes the runner for an async future: its state, and [`UseAsyncHandle::run`] to start
/// resolving the future.
///
/// The runner starts out `Pending`, with `future` captured for its first run, and does
/// not run it when the component is mounted.
pub fn use_async<F, T, E>(future: F) -> (handle: UseAsyncHandle<F, T, E>) where
    F: Future<Output = Result<T, E>>,

    ensures
        handle@ == UseAsyncModel::<F, T, E>::new(future, false),
{
    use_async_with_options(future, UseAsyncOptions::default())
}

/// Makes the runner for an async future, with options. See [`use_async`] too.
///
/// The runner starts out `Pending`, with `future` captured for its first run. With the
/// `auto` option, mounting the component runs it.
pub fn use_async_with_options<F, T, E>(future: F, options: UseAsyncOptions) -> (handle:
    UseAsyncHandle<F, T, E>) where F: Future<Output = Result<T, E>>
    ensures
        handle@ == UseAsyncModel::<F, T, E>::new(future, options.auto),
{
    UseAsyncHandle {
        inner: Rc::new(AsyncStateVersion::new()),
        future: Some(future),
        auto: options.auto,
        mounted: false,
    }
}

} // verus!
