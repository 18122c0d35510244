//! Configuring the instance and cleaning it up: the events, the actions, and
//! the transition function of each.
//!
//! An instance is configured at most once: it registers the calling thread,
//! loads a configuration, sets it up and keeps it. Cleaning up undoes this in
//! the same order: the configuration is cleaned and dropped, then the thread
//! is released.

use vstd::prelude::*;
use crate::error::CneError;
use crate::instance::InstanceView;

verus! {

/// The name under which `configure` registers the calling thread.
pub const CONFIGURE_THREAD: &'static str = "configure";

/// What the driver reports while the instance is being configured.
#[derive(Debug, PartialEq, Eq)]
pub enum ConfigureEvent<C> {
    /// Nothing yet: the operation begins.
    Start,
    /// How registering the calling thread ended.
    Registered(Result<i32, CneError>),
    /// How loading the configuration file ended.
    Loaded(Result<C, CneError>),
    /// The configuration that was handed out to be set up, and how setting
    /// it up ended.
    SetUp(C, Result<(), CneError>),
}

/// What the driver is to do next while the instance is being configured.
#[derive(Debug, PartialEq, Eq)]
pub enum ConfigureAction<'a, C> {
    /// Register the calling thread under this name.
    Register(&'a str),
    /// Load the configuration from the file of this name.
    Load(&'a str),
    /// Set this configuration up, and hand it back with the result.
    SetUp(C),
    /// Stop: this is the result of the operation.
    Done(Result<(), CneError>),
}

/// What the driver reports while the instance is being cleaned up.
#[derive(Debug, PartialEq, Eq)]
pub enum CleanupEvent {
    /// Nothing yet: the operation begins.
    Start,
    /// How cleaning the configuration of the instance ended.
    Cleaned(Result<(), CneError>),
    /// How unregistering the thread of the instance ended.
    Unregistered(Result<(), CneError>),
}

/// What the driver is to do next while the instance is being cleaned up.
#[derive(Debug, PartialEq, Eq)]
pub enum CleanupAction {
    /// Clean the configuration that the instance holds.
    Clean,
    /// Unregister the thread with this identifier.
    Unregister(i32),
    /// Stop: this is the result of the operation.
    Done(Result<(), CneError>),
}

/// One step of configuring: the state after `event`, and the next action.
///
/// A configured instance stays as it is and reports success, whatever the
/// event. Otherwise every failure ends the operation with the error that was
/// reported and leaves the state alone; the identifier of a registered thread
/// is kept at once, the configuration only after it was set up.
pub open spec fn configure_step<'a, C>(
    s: InstanceView<C>,
    jsonc_file: &'a str,
    event: ConfigureEvent<C>,
) -> (InstanceView<C>, ConfigureAction<'a, C>) {
    if s.cfg is Some {
        (s, ConfigureAction::Done(Ok(())))
    } else {
        match event {
            ConfigureEvent::Start => (s, ConfigureAction::Register(CONFIGURE_THREAD)),
            ConfigureEvent::Registered(Ok(tid)) => (
                InstanceView { cfg: s.cfg, tid },
                ConfigureAction::Load(jsonc_file),
            ),
            ConfigureEvent::Registered(Err(e)) => (s, ConfigureAction::Done(Err(e))),
            ConfigureEvent::Loaded(Ok(cfg)) => (s, ConfigureAction::SetUp(cfg)),
            ConfigureEvent::Loaded(Err(e)) => (s, ConfigureAction::Done(Err(e))),
            ConfigureEvent::SetUp(cfg, Ok(_)) => (
                InstanceView { cfg: Some(cfg), tid: s.tid },
                ConfigureAction::Done(Ok(())),
            ),
            ConfigureEvent::SetUp(_, Err(e)) => (s, ConfigureAction::Done(Err(e))),
        }
    }
}

/// The state of an instance that holds no configuration and no thread.
pub open spec fn pristine<C>() -> InstanceView<C> {
    InstanceView { cfg: None, tid: -1i32 }
}

/// What is left to do for an instance that is being cleaned up: clean the
/// configuration while there is one, then release the thread while there is
/// one, then stop with the state reset.
pub open spec fn cleanup_next<C>(s: InstanceView<C>) -> (InstanceView<C>, CleanupAction) {
    if s.cfg is Some {
        (s, CleanupAction::Clean)
    } else if s.tid >= 0 {
        (s, CleanupAction::Unregister(s.tid))
    } else {
        (pristine(), CleanupAction::Done(Ok(())))
    }
}

/// One step of cleaning up: the state after `event`, and the next action.
///
/// A failure ends the operation with the error that was reported and leaves
/// the state alone. A configuration that was cleaned is dropped, a thread
/// that was unregistered is forgotten, and the operation goes on with what
/// is left.
pub open spec fn cleanup_step<C>(s: InstanceView<C>, event: CleanupEvent) -> (
    InstanceView<C>,
    CleanupAction,
) {
    match event {
        CleanupEvent::Start => cleanup_next(s),
        CleanupEvent::Cleaned(Ok(_)) => cleanup_next(InstanceView { cfg: None, tid: s.tid }),
        CleanupEvent::Cleaned(Err(e)) => (s, CleanupAction::Done(Err(e))),
        CleanupEvent::Unregistered(Ok(_)) => cleanup_next(InstanceView { cfg: s.cfg, tid: -1i32 }),
        CleanupEvent::Unregistered(Err(e)) => (s, CleanupAction::Done(Err(e))),
    }
}

} // verus!
