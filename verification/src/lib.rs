//! A minimal executor that drives a single poll-based task to completion by
//! busy polling: it repeatedly asks the task for progress, handing it a no-op
//! wake handle, until the task reports that it is done, and then returns the
//! task's result value. There is no thread parking, no readiness
//! notification, and no allocation: suspension is communicated by the task
//! but intentionally never acted upon, because the driver polls
//! unconditionally.

pub mod driver;
pub mod task;
pub mod tasks;
pub mod wake;

pub use crate::driver::spin_for;
pub use crate::driver::spin_on;
pub use crate::task::Progress;
pub use crate::task::Task;
pub use crate::tasks::Countdown;
pub use crate::tasks::NeverDone;
pub use crate::tasks::Ready;
pub use crate::wake::noop_waker;
pub use crate::wake::NoopWaker;
pub use crate::wake::ResumeContext;
