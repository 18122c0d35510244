//! Registering the calling thread with the runtime, and releasing it again.
//!
//! The runtime knows each thread by a non-negative identifier and answers
//! with a negative number where it has none to give.

use vstd::prelude::*;
use crate::error::{outcome, CneError, CneErrorView};

verus! {

/// The message of the error for a thread that the runtime did not register.
pub const REGISTER_FAILED: &'static str = "Error registering thread with CNE";

/// The message of the error for a thread that the runtime did not release.
pub const UNREGISTER_FAILED: &'static str = "Error unregistering thread with CNE";

/// What the driver reports while a thread is being registered.
#[derive(Debug, Clone, Copy, PartialEq, Eq)]
pub enum RegisterEvent {
    /// Nothing yet: the operation begins.
    Start,
    /// The identifier that the runtime has for the calling thread, negative
    /// if the thread is unknown to it.
    ThreadId(i32),
    /// What the runtime returned when asked to register the calling thread.
    Registered(i32),
}

/// What the driver is to do next while a thread is being registered.
#[derive(Debug, PartialEq, Eq)]
pub enum RegisterAction<'a> {
    /// Ask the runtime for the identifier of the calling thread.
    QueryThread,
    /// Ask the runtime to register the calling thread under this name.
    Register(&'a str),
    /// Stop: this is the result of the operation.
    Done(Result<i32, CneError>),
}

/// What the driver reports while a thread is being unregistered.
#[derive(Debug, Clone, Copy, PartialEq, Eq)]
pub enum UnregisterEvent {
    /// Nothing yet: the operation begins.
    Start,
    /// What the runtime returned when asked to release the thread.
    Returned(i32),
}

/// What the driver is to do next while a thread is being unregistered.
#[derive(Debug, PartialEq, Eq)]
pub enum UnregisterAction {
    /// Ask the runtime to release the thread with this identifier.
    Unregister(i32),
    /// Stop: this is the result of the operation.
    Done(Result<(), CneError>),
}

/// The result of registering, for the identifier that the runtime returned:
/// the identifier itself, or a registration error if it is negative.
pub open spec fn registered(tid: i32) -> Result<i32, CneErrorView> {
    if tid >= 0 {
        Ok(tid)
    } else {
        Err(CneErrorView::RegisterError(REGISTER_FAILED@))
    }
}

/// The result of unregistering, for the code that the runtime returned:
/// success, or a registration error if the code is negative.
pub open spec fn unregistered(code: i32) -> Result<(), CneErrorView> {
    if code >= 0 {
        Ok(())
    } else {
        Err(CneErrorView::RegisterError(UNREGISTER_FAILED@))
    }
}

/// Whether `action` is the answer to `event` while a thread is being
/// registered under the name `s`. A thread that the runtime already knows
/// keeps its identifier and is not registered again.
pub open spec fn register_answer(s: &str, event: RegisterEvent, action: RegisterAction) -> bool {
    match event {
        RegisterEvent::Start => action == RegisterAction::QueryThread,
        RegisterEvent::ThreadId(tid) => action == if tid >= 0 {
            RegisterAction::Done(Ok(tid))
        } else {
            RegisterAction::Register(s)
        },
        RegisterEvent::Registered(tid) => action matches RegisterAction::Done(r) && outcome(r)
            == registered(tid),
    }
}

/// Whether `action` is the answer to `event` while the thread `tid` is being
/// unregistered.
pub open spec fn unregister_answer(tid: i32, event: UnregisterEvent, action: UnregisterAction) -> bool {
    match event {
        UnregisterEvent::Start => action == UnregisterAction::Unregister(tid),
        UnregisterEvent::Returned(code) => action matches UnregisterAction::Done(r) && outcome(r)
            == unregistered(code),
    }
}

} // verus!
