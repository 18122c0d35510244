//! What holds of the operations taken together.
//!
//! The step functions of [`crate::lifecycle`] say what one call does. The
//! laws here say what follows for a whole operation: that configuring twice
//! is configuring once, that a cleanup which succeeds leaves nothing behind,
//! that a failure is reported without a change, and that a driver which
//! answers every action arrives, in a bounded number of steps, at the result
//! of doing the same things one after the other.

use vstd::prelude::*;
use crate::error::CneError;
use crate::instance::InstanceView;
use crate::lifecycle::{
    cleanup_step, configure_step, pristine, CleanupAction, CleanupEvent, ConfigureAction,
    ConfigureEvent,
};

verus! {

/// Configuring an instance from start to end, the runtime's answers given:
/// `registered` is how registering the thread ends, `loaded` how loading the
/// file ends, and `set_up` the configuration after it was set up, with how
/// that ended. Each is asked for only if everything before it succeeded.
pub open spec fn configure_run<C>(
    s: InstanceView<C>,
    registered: Result<i32, CneError>,
    loaded: Result<C, CneError>,
    set_up: (C, Result<(), CneError>),
) -> (InstanceView<C>, Result<(), CneError>) {
    if s.cfg is Some {
        (s, Ok(()))
    } else {
        match registered {
            Err(e) => (s, Err(e)),
            Ok(tid) => match (loaded, set_up.1) {
                (Err(e), _) => (InstanceView { cfg: s.cfg, tid }, Err(e)),
                (Ok(_), Err(e)) => (InstanceView { cfg: s.cfg, tid }, Err(e)),
                (Ok(_), Ok(_)) => (InstanceView { cfg: Some(set_up.0), tid }, Ok(())),
            },
        }
    }
}

/// Cleaning an instance up from start to end, the runtime's answers given:
/// `cleaned` is the configuration after it was cleaned, with how that ended,
/// and `unregistered` how releasing the thread ends. The configuration is
/// cleaned if there is one, and the thread released if there is one and
/// nothing failed before.
pub open spec fn cleanup_run<C>(
    s: InstanceView<C>,
    cleaned: (C, Result<(), CneError>),
    unregistered: Result<(), CneError>,
) -> (InstanceView<C>, Result<(), CneError>) {
    match (s.cfg, cleaned.1) {
        (Some(_), Err(e)) => (InstanceView { cfg: Some(cleaned.0), tid: s.tid }, Err(e)),
        _ => if s.tid >= 0 {
            match unregistered {
                Err(e) => (InstanceView { cfg: None, tid: s.tid }, Err(e)),
                Ok(_) => (pristine(), Ok(())),
            }
        } else {
            (pristine(), Ok(()))
        },
    }
}

/// A driver of `configure`: it makes the step for `event`, performs the
/// action with the answers given, and goes on with the event that reports
/// the answer, for at most `fuel` actions. The result is `None` if the
/// operation has not ended by then.
pub open spec fn configure_drive<C>(
    s: InstanceView<C>,
    jsonc_file: &str,
    registered: Result<i32, CneError>,
    loaded: Result<C, CneError>,
    set_up: (C, Result<(), CneError>),
    event: ConfigureEvent<C>,
    fuel: nat,
) -> (InstanceView<C>, Option<Result<(), CneError>>)
    decreases fuel,
{
    let (next, action) = configure_step(s, jsonc_file, event);
    match action {
        ConfigureAction::Done(r) => (next, Some(r)),
        _ => if fuel == 0 {
            (next, None)
        } else {
            let answer = match action {
                ConfigureAction::Register(_) => ConfigureEvent::Registered(registered),
                ConfigureAction::Load(_) => ConfigureEvent::Loaded(loaded),
                _ => ConfigureEvent::SetUp(set_up.0, set_up.1),
            };
            configure_drive(
                next,
                jsonc_file,
                registered,
                loaded,
                set_up,
                answer,
                (fuel - 1) as nat,
            )
        },
    }
}

/// A driver of `cleanup`, as `configure_drive` is one of `configure`. It
/// cleans the configuration where the instance holds it, so that the state
/// it goes on with holds the configuration as cleaning left it.
pub open spec fn cleanup_drive<C>(
    s: InstanceView<C>,
    cleaned: (C, Result<(), CneError>),
    unregistered: Result<(), CneError>,
    event: CleanupEvent,
    fuel: nat,
) -> (InstanceView<C>, Option<Result<(), CneError>>)
    decreases fuel,
{
    let (next, action) = cleanup_step(s, event);
    match action {
        CleanupAction::Done(r) => (next, Some(r)),
        _ => if fuel == 0 {
            (next, None)
        } else {
            let (worked, answer) = match action {
                CleanupAction::Clean => (
                    InstanceView { cfg: Some(cleaned.0), tid: next.tid },
                    CleanupEvent::Cleaned(cleaned.1),
                ),
                _ => (next, CleanupEvent::Unregistered(unregistered)),
            };
            cleanup_drive(worked, cleaned, unregistered, answer, (fuel - 1) as nat)
        },
    }
}

/// Configuring is idempotent: on a configured instance every step of
/// `configure` reports success, asks for nothing and changes nothing.
pub proof fn law_configure_idempotent<C>(
    s: InstanceView<C>,
    jsonc_file: &str,
    event: ConfigureEvent<C>,
)
    requires
        s.cfg is Some,
    ensures
        configure_step(s, jsonc_file, event) == (s, ConfigureAction::<C>::Done(Ok(()))),
{
}

/// A step of `configure` that reports success leaves a configured instance.
pub proof fn law_configure_success_is_configured<C>(
    s: InstanceView<C>,
    jsonc_file: &str,
    event: ConfigureEvent<C>,
)
    requires
        configure_step(s, jsonc_file, event).1 == ConfigureAction::<C>::Done(Ok(())),
    ensures
        configure_step(s, jsonc_file, event).0.cfg is Some,
{
}

/// A step of `configure` that reports a failure changes nothing.
pub proof fn law_configure_failure_keeps_state<C>(
    s: InstanceView<C>,
    jsonc_file: &str,
    event: ConfigureEvent<C>,
)
    requires
        configure_step(s, jsonc_file, event).1 matches ConfigureAction::Done(Err(_)),
    ensures
        configure_step(s, jsonc_file, event).0 == s,
{
}

/// Cleaning up resets the state: a step of `cleanup` that reports success
/// leaves an instance without a configuration and without a thread.
pub proof fn law_cleanup_resets<C>(s: InstanceView<C>, event: CleanupEvent)
    requires
        cleanup_step(s, event).1 == CleanupAction::Done(Ok(())),
    ensures
        cleanup_step(s, event).0 == pristine::<C>(),
{
}

/// A step of `cleanup` that reports a failure changes nothing.
pub proof fn law_cleanup_failure_keeps_state<C>(s: InstanceView<C>, event: CleanupEvent)
    requires
        cleanup_step(s, event).1 matches CleanupAction::Done(Err(_)),
    ensures
        cleanup_step(s, event).0 == s,
{
}

/// What `cleanup` asks for is there to be done: it asks to clean only while
/// the instance holds a configuration, and to unregister only the thread that
/// the instance holds, once the configuration is gone.
pub proof fn law_cleanup_asks_for_what_is_held<C>(s: InstanceView<C>, event: CleanupEvent)
    ensures
        cleanup_step(s, event).1 == CleanupAction::Clean ==> cleanup_step(s, event).0.cfg is Some,
        cleanup_step(s, event).1 matches CleanupAction::Unregister(tid) ==> tid >= 0
            && cleanup_step(s, event).0 == (InstanceView::<C> { cfg: None, tid }),
{
}

/// A driver that begins with `Start` and answers each action of `configure`
/// ends after at most three actions, with the state and the result of
/// `configure_run`.
pub proof fn law_configure_run<C>(
    s: InstanceView<C>,
    jsonc_file: &str,
    registered: Result<i32, CneError>,
    loaded: Result<C, CneError>,
    set_up: (C, Result<(), CneError>),
    fuel: nat,
)
    requires
        fuel >= 3,
    ensures
        configure_drive(s, jsonc_file, registered, loaded, set_up, ConfigureEvent::Start, fuel)
            == (
            configure_run(s, registered, loaded, set_up).0,
            Some(configure_run(s, registered, loaded, set_up).1),
        ),
{
    reveal_with_fuel(configure_drive, 4);
}

/// A driver that begins with `Start` and answers each action of `cleanup`
/// ends after at most two actions, with the state and the result of
/// `cleanup_run`.
pub proof fn law_cleanup_run<C>(
    s: InstanceView<C>,
    cleaned: (C, Result<(), CneError>),
    unregistered: Result<(), CneError>,
    fuel: nat,
)
    requires
        fuel >= 2,
    ensures
        cleanup_drive(s, cleaned, unregistered, CleanupEvent::Start, fuel) == (
            cleanup_run(s, cleaned, unregistered).0,
            Some(cleanup_run(s, cleaned, unregistered).1),
        ),
{
    reveal_with_fuel(cleanup_drive, 3);
}

/// Configuring and then cleaning up, with nothing failing, leaves the
/// instance as it was made.
pub proof fn law_round_trip<C>(tid: i32, loaded: C, set_up: C, cleaned: C)
    ensures
        cleanup_run(
            configure_run(pristine::<C>(), Ok(tid), Ok(loaded), (set_up, Ok(()))).0,
            (cleaned, Ok(())),
            Ok(()),
        ) == (pristine::<C>(), Ok::<(), CneError>(())),
{
}

} // verus!
