//! State-management primitives for running asynchronous tasks from UI
//! components: a versioned tri-state outcome, a version allocator, and the
//! task runners that decide which of several overlapping task results wins.
//!
//! The runners are plain state machines. They do not execute anything themselves:
//! they tell their caller which task to start and under which version, and are
//! told in turn what each task resolved to. Whatever the order in which the
//! outcomes arrive, the state converges to the outcome of the task that was
//! launched last.

pub mod allocator;
pub mod deps;
pub mod runner;
pub mod state;
pub mod supersession;
pub mod versioned;

pub use allocator::VersionAllocator;
pub use deps::use_async_with_cloned_deps;
pub use deps::use_async_with_deps;
pub use deps::UseAsyncHandleDeps;
pub use runner::use_async;
pub use runner::use_async_with_options;
pub use runner::Launch;
pub use runner::UseAsyncHandle;
pub use runner::UseAsyncOptions;
pub use state::UseAsyncState;
pub use versioned::AsyncStateVersion;
