//! The tri-state outcome of an asynchronous task.

use vstd::prelude::*;
use vstd::std_specs::cmp::PartialEqSpec;

verus! {

/// State for an async future.
///
/// Exactly one variant holds at any time: no task was ever started
/// (`Pending`), a task is in flight (`Processing`), or the most recent task
/// resolved (`Ready`), successfully or not.
pub enum UseAsyncState<T, E> {
    /// No task has been started yet.
    Pending,
    /// A task is in flight.
    Processing,
    /// The task resolved, with its data or its error.
    Ready(Result<T, E>),
}

impl<T, E> Default for UseAsyncState<T, E> {
    fn default() -> (state: Self)
        ensures
            state is Pending,
    {
        Self::Pending
    }
}

impl<T, E> UseAsyncState<T, E> {
    /// Checks if the task is processing.
    ///
    /// This only checks for [`Self::Processing`] and ignores [`Self::Pending`]. It is intended
    /// to check if the task should be able to be started, like mapping the result to a
    /// "disabled" state on a button that triggers the task.
    #[inline]
    pub fn is_processing(&self) -> (b: bool)
        ensures
            b <==> *self is Processing,
    {
        matches!(self, Self::Processing)
    }

    /// Return the data, if there is some.
    ///
    /// This only returns data if the state currently is a resolved async task with an [`Ok`]
    /// outcome.
    pub fn data(&self) -> (data: Option<&T>)
        ensures
            data == match *self {
                Self::Ready(Ok(value)) => Some(&value),
                _ => None,
            },
    {
        match self {
            Self::Ready(Ok(data)) => Some(data),
            _ => None,
        }
    }

    /// Return the error, if there is some.
    ///
    /// This only returns an error if the state currently is a resolved async task with an
    /// [`Err`] outcome.
    pub fn error(&self) -> (error: Option<&E>)
        ensures
            error == match *self {
                Self::Ready(Err(err)) => Some(&err),
                _ => None,
            },
    {
        match self {
            Self::Ready(Err(err)) => Some(err),
            _ => None,
        }
    }
}

impl<T: PartialEq, E: PartialEq> UseAsyncState<T, E> {
    /// What `==` means on states: two states are equal when they are in the same variant
    /// and carry equal values.
    pub open spec fn same_as(self, other: Self) -> bool {
        match (self, other) {
            (Self::Pending, Self::Pending) => true,
            (Self::Processing, Self::Processing) => true,
            (Self::Ready(Ok(a)), Self::Ready(Ok(b))) => a.eq_spec(&b),
            (Self::Ready(Err(a)), Self::Ready(Err(b))) => a.eq_spec(&b),
            _ => false,
        }
    }
}

impl<T: Clone, E: Clone> UseAsyncState<T, E> {
    /// Whether `copy` is a clone of `self`: it is in the same variant, and what it carries
    /// is a clone of what `self` carries.
    pub open spec fn cloned_as(self, copy: Self) -> bool {
        match (self, copy) {
            (Self::Pending, Self::Pending) => true,
            (Self::Processing, Self::Processing) => true,
            (Self::Ready(Ok(a)), Self::Ready(Ok(b))) => cloned::<T>(a, b),
            (Self::Ready(Err(a)), Self::Ready(Err(b))) => cloned::<E>(a, b),
            _ => false,
        }
    }
}

impl<T: Clone, E: Clone> Clone for UseAsyncState<T, E> {
    fn clone(&self) -> (copy: Self)
        ensures
            self.cloned_as(copy),
    {
        match self {
            Self::Pending => Self::Pending,
            Self::Processing => Self::Processing,
            Self::Ready(Ok(data)) => Self::Ready(Ok(data.clone())),
            Self::Ready(Err(err)) => Self::Ready(Err(err.clone())),
        }
    }
}

impl<T: PartialEq, E: PartialEq> PartialEq for UseAsyncState<T, E> {
    fn eq(&self, other: &Self) -> (equal: bool) {
        match (self, other) {
            (Self::Pending, Self::Pending) => true,
            (Self::Processing, Self::Processing) => true,
            (Self::Ready(Ok(a)), Self::Ready(Ok(b))) => a == b,
            (Self::Ready(Err(a)), Self::Ready(Err(b))) => a == b,
            _ => false,
        }
    }
}

impl<T: PartialEq, E: PartialEq> vstd::std_specs::cmp::PartialEqSpecImpl for UseAsyncState<T, E> {
    open spec fn obeys_eq_spec() -> bool {
        T::obeys_eq_spec() && E::obeys_eq_spec()
    }

    open spec fn eq_spec(&self, other: &Self) -> bool {
        self.same_as(*other)
    }
}

impl<T: Eq, E: Eq> Eq for UseAsyncState<T, E> {

}

} // verus!
