//! The verified core of a process-wide handle on a packet-processing runtime.
//!
//! The runtime itself is native code: it registers threads, loads a
//! configuration and sets up ports. This crate holds what the handle decides
//! around those calls, and none of the calls. Each operation is a step
//! function: it takes what the runtime answered last (an event), updates the
//! state of the instance, and says what to ask of the runtime next (an
//! action). Whoever drives it performs the action and comes back with the
//! answer, until the action is `Done`.
//!
//! The instance is a plain value. A process that shares one between threads
//! keeps it behind a lock and holds the lock from the first step of an
//! operation to its last.
//!
//! - [`error`]: the errors and their messages.
//! - [`thread`]: events and actions of registering and unregistering a thread.
//! - [`lifecycle`]: events and actions of configuring and cleaning up, and the
//!   transition functions that the contracts speak of.
//! - [`port`]: the lookups that a configured instance forwards.
//! - [`instance`]: the instance and its operations.
//! - [`laws`]: what holds of the operations taken together.

pub mod error;
pub mod thread;
pub mod lifecycle;
pub mod port;
pub mod instance;
pub mod laws;
