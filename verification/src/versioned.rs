//! A task outcome together with the version stamp it was published under, and the
//! supersession rule that decides whether a newly published outcome replaces the stored
//! one.

use std::ops::Deref;
use std::rc::Rc;
use vstd::prelude::*;
use vstd::std_specs::cmp::PartialEqSpec;

use crate::state::UseAsyncState;

verus! {

/// An outcome and the version it was published under.
pub struct AsyncStateVersion<T, E> {
    pub state: UseAsyncState<T, E>,
    pub version: u64,
}

impl<T, E> AsyncStateVersion<T, E> {
    /// The supersession rule: the stored value after `candidate` has been published over
    /// `self`. The candidate replaces the stored value unless it is older, that is unless
    /// its version is lower.
    pub open spec fn spec_apply(self, candidate: Self) -> Self {
        if candidate.version >= self.version {
            candidate
        } else {
            self
        }
    }

    /// What a state container holds before anything was published: `Pending`, under
    /// version 0.
    pub open spec fn spec_new() -> Self {
        AsyncStateVersion { state: UseAsyncState::Pending, version: 0 }
    }

    /// `Processing`, under `version`.
    pub open spec fn spec_processing(version: u64) -> Self {
        AsyncStateVersion { state: UseAsyncState::Processing, version }
    }

    /// `Ready(outcome)`, under `version`.
    pub open spec fn spec_ready(version: u64, outcome: Result<T, E>) -> Self {
        AsyncStateVersion { state: UseAsyncState::Ready(outcome), version }
    }

    /// The value of a state container that nothing was published to yet.
    #[verifier::when_used_as_spec(spec_new)]
    pub fn new() -> (initial: Self)
        ensures
            initial == Self::spec_new(),
    {
        AsyncStateVersion { state: UseAsyncState::Pending, version: 0 }
    }

    /// The value to publish when the task stamped `version` is launched.
    #[verifier::when_used_as_spec(spec_processing)]
    pub fn processing(version: u64) -> (action: Self)
        ensures
            action == Self::spec_processing(version),
    {
        AsyncStateVersion { state: UseAsyncState::Processing, version }
    }

    /// The value to publish when the task stamped `version` has resolved to `outcome`.
    #[verifier::when_used_as_spec(spec_ready)]
    pub fn ready(version: u64, outcome: Result<T, E>) -> (action: Self)
        ensures
            action == Self::spec_ready(version, outcome),
    {
        AsyncStateVersion { state: UseAsyncState::Ready(outcome), version }
    }

    /// Publishes `candidate` over `self` and returns what is stored afterwards:
    /// `candidate` if its version is at least that of `self`, else `self` unchanged.
    ///
    /// This keeps the result of a task that was superseded from overwriting the result of
    /// a task that was launched after it, even where the superseded task is the one that
    /// resolves last.
    #[verifier::when_used_as_spec(spec_apply)]
    pub fn apply(self, candidate: Self) -> (next: Self)
        ensures
            next == self.spec_apply(candidate),
    {
        if self.accepts(&candidate) {
            candidate
        } else {
            self
        }
    }

    /// Whether `action` replaces `self` when it is published over it: it does unless it
    /// is older.
    pub fn accepts(&self, action: &Self) -> (accepted: bool)
        ensures
            accepted <==> action.version >= self.version,
            accepted ==> self.apply(*action) == *action,
            !accepted ==> self.apply(*action) == *self,
    {
        action.version >= self.version
    }

    /// [`Self::apply`] on a shared value: publishes `action` over the stored value and
    /// returns what is stored afterwards. Where the stored value stays, it is handed back
    /// as it came, without a copy.
    pub fn reduce(self: Rc<Self>, action: Self) -> (next: Rc<Self>)
        ensures
            *next == (*self).apply(action),
    {
        if self.accepts(&action) {
            Rc::new(action)
        } else {
            self
        }
    }
}

impl<T: PartialEq, E: PartialEq> PartialEq for AsyncStateVersion<T, E> {
    /// Compares the outcomes only: the version plays no part in change detection.
    fn eq(&self, other: &Self) -> (equal: bool) {
        self.state == other.state
    }
}

impl<T: PartialEq, E: PartialEq> vstd::std_specs::cmp::PartialEqSpecImpl for AsyncStateVersion<T, E> {
    open spec fn obeys_eq_spec() -> bool {
        T::obeys_eq_spec() && E::obeys_eq_spec()
    }

    /// Two versioned outcomes are equal when their outcomes are, whatever their versions.
    open spec fn eq_spec(&self, other: &Self) -> bool {
        self.state.same_as(other.state)
    }
}

impl<T: Clone, E: Clone> Clone for AsyncStateVersion<T, E> {
    /// The clone has the same version, and its outcome is a clone of the outcome of
    /// `self`.
    fn clone(&self) -> (copy: Self)
        ensures
            copy.version == self.version,
            self.state.cloned_as(copy.state),
    {
        Self { state: self.state.clone(), version: self.version }
    }
}

impl<T, E> Deref for AsyncStateVersion<T, E> {
    type Target = UseAsyncState<T, E>;

    fn deref(&self) -> (state: &Self::Target)
        ensures
            *state == self.state,
    {
        &self.state
    }
}

} // verus!
