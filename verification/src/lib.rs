//! A lightweight task-scheduling library: a work-stealing pool of worker
//! threads onto which short-lived, fire-and-forget tasks are submitted,
//! together with a barrier that blocks until all outstanding work has drained.

pub mod gt;
