use cne::error::CneError;
use cne::instance::CneInstance;
use cne::lifecycle::{
    CleanupAction, CleanupEvent, ConfigureAction, ConfigureEvent, CONFIGURE_THREAD,
};

/// A configuration that records what was done to it.
#[derive(Debug, PartialEq, Eq)]
struct Config {
    file: String,
    set_up: bool,
    cleaned: bool,
}

fn loaded(file: &str) -> Config {
    Config { file: file.to_string(), set_up: false, cleaned: false }
}

fn ready(file: &str) -> Config {
    Config { file: file.to_string(), set_up: true, cleaned: false }
}

fn configured(file: &str, tid: i32) -> CneInstance<Config> {
    let mut cne = CneInstance::new();
    assert_eq!(
        cne.configure(file, ConfigureEvent::Registered(Ok(tid))),
        ConfigureAction::Load(file)
    );
    assert_eq!(
        cne.configure(file, ConfigureEvent::SetUp(ready(file), Ok(()))),
        ConfigureAction::Done(Ok(()))
    );
    cne
}

fn port_error(text: &str) -> CneError {
    CneError::PortError(text.to_string())
}

#[test]
fn a_new_instance_holds_nothing() {
    let mut cne: CneInstance<Config> = CneInstance::new();
    assert!(!cne.is_configured());
    assert_eq!(cne.thread_id(), -1);
    assert!(cne.config_mut().is_none());
}

#[test]
fn configure_registers_the_calling_thread_first() {
    let mut cne: CneInstance<Config> = CneInstance::new();
    assert_eq!(
        cne.configure("cne.jsonc", ConfigureEvent::Start),
        ConfigureAction::Register("configure")
    );
    assert_eq!(CONFIGURE_THREAD, "configure");
    assert!(!cne.is_configured());
    assert_eq!(cne.thread_id(), -1);
}

#[test]
fn configure_keeps_the_thread_and_loads_the_file() {
    let mut cne: CneInstance<Config> = CneInstance::new();
    assert_eq!(
        cne.configure("cne.jsonc", ConfigureEvent::Registered(Ok(4))),
        ConfigureAction::Load("cne.jsonc")
    );
    assert_eq!(cne.thread_id(), 4);
    assert!(!cne.is_configured());
}

#[test]
fn configure_hands_a_loaded_configuration_out_to_be_set_up() {
    let mut cne: CneInstance<Config> = CneInstance::new();
    assert_eq!(
        cne.configure("cne.jsonc", ConfigureEvent::Loaded(Ok(loaded("cne.jsonc")))),
        ConfigureAction::SetUp(loaded("cne.jsonc"))
    );
    assert!(!cne.is_configured());
}

#[test]
fn configure_keeps_a_configuration_that_was_set_up() {
    let mut cne: CneInstance<Config> = CneInstance::new();
    cne.configure("cne.jsonc", ConfigureEvent::Registered(Ok(4)));
    assert_eq!(
        cne.configure("cne.jsonc", ConfigureEvent::SetUp(ready("cne.jsonc"), Ok(()))),
        ConfigureAction::Done(Ok(()))
    );
    assert!(cne.is_configured());
    assert_eq!(cne.thread_id(), 4);
    assert_eq!(cne.config_mut(), Some(&mut ready("cne.jsonc")));
}

#[test]
fn configure_fails_when_registering_fails() {
    let mut cne: CneInstance<Config> = CneInstance::new();
    let e = CneError::RegisterError("Error registering thread with CNE".to_string());
    assert_eq!(
        cne.configure("cne.jsonc", ConfigureEvent::Registered(Err(e))),
        ConfigureAction::Done(Err(CneError::RegisterError(
            "Error registering thread with CNE".to_string()
        )))
    );
    assert!(!cne.is_configured());
    assert_eq!(cne.thread_id(), -1);
}

#[test]
fn configure_passes_a_poisoned_lock_on() {
    let mut cne: CneInstance<Config> = CneInstance::new();
    assert_eq!(
        cne.configure("cne.jsonc", ConfigureEvent::Registered(Err(port_error("poisoned")))),
        ConfigureAction::Done(Err(port_error("poisoned")))
    );
    assert_eq!(cne.thread_id(), -1);
}

#[test]
fn configure_fails_when_loading_fails_and_keeps_the_thread() {
    let mut cne: CneInstance<Config> = CneInstance::new();
    cne.configure("cne.jsonc", ConfigureEvent::Registered(Ok(9)));
    let e = CneError::ConfigError("no such file".to_string());
    assert_eq!(
        cne.configure("cne.jsonc", ConfigureEvent::Loaded(Err(e))),
        ConfigureAction::Done(Err(CneError::ConfigError("no such file".to_string())))
    );
    assert!(!cne.is_configured());
    assert_eq!(cne.thread_id(), 9);
}

#[test]
fn configure_fails_when_setting_up_fails_and_drops_the_configuration() {
    let mut cne: CneInstance<Config> = CneInstance::new();
    cne.configure("cne.jsonc", ConfigureEvent::Registered(Ok(9)));
    assert_eq!(
        cne.configure(
            "cne.jsonc",
            ConfigureEvent::SetUp(loaded("cne.jsonc"), Err(port_error("no such device")))
        ),
        ConfigureAction::Done(Err(port_error("no such device")))
    );
    assert!(!cne.is_configured());
    assert!(cne.config_mut().is_none());
    assert_eq!(cne.thread_id(), 9);
}

#[test]
fn configure_is_idempotent() {
    let mut cne = configured("first.jsonc", 4);
    assert_eq!(
        cne.configure("second.jsonc", ConfigureEvent::Start),
        ConfigureAction::Done(Ok(()))
    );
    assert_eq!(
        cne.configure("second.jsonc", ConfigureEvent::Registered(Ok(8))),
        ConfigureAction::Done(Ok(()))
    );
    assert_eq!(
        cne.configure("second.jsonc", ConfigureEvent::Registered(Err(port_error("x")))),
        ConfigureAction::Done(Ok(()))
    );
    assert_eq!(
        cne.configure("second.jsonc", ConfigureEvent::Loaded(Ok(loaded("second.jsonc")))),
        ConfigureAction::Done(Ok(()))
    );
    assert_eq!(
        cne.configure("second.jsonc", ConfigureEvent::Loaded(Err(port_error("x")))),
        ConfigureAction::Done(Ok(()))
    );
    assert_eq!(
        cne.configure("second.jsonc", ConfigureEvent::SetUp(ready("second.jsonc"), Ok(()))),
        ConfigureAction::Done(Ok(()))
    );
    assert_eq!(
        cne.configure(
            "second.jsonc",
            ConfigureEvent::SetUp(ready("second.jsonc"), Err(port_error("x")))
        ),
        ConfigureAction::Done(Ok(()))
    );
    assert!(cne.is_configured());
    assert_eq!(cne.thread_id(), 4);
    assert_eq!(cne.config_mut(), Some(&mut ready("first.jsonc")));
}

#[test]
fn cleanup_of_a_new_instance_is_done_at_once() {
    let mut cne: CneInstance<Config> = CneInstance::new();
    assert_eq!(cne.cleanup(CleanupEvent::Start), CleanupAction::Done(Ok(())));
    assert!(!cne.is_configured());
    assert_eq!(cne.thread_id(), -1);
}

#[test]
fn cleanup_cleans_the_configuration_first() {
    let mut cne = configured("cne.jsonc", 4);
    assert_eq!(cne.cleanup(CleanupEvent::Start), CleanupAction::Clean);
    assert!(cne.is_configured());
    assert_eq!(cne.thread_id(), 4);
}

#[test]
fn cleanup_drops_a_cleaned_configuration_and_releases_the_thread() {
    let mut cne = configured("cne.jsonc", 4);
    assert_eq!(cne.cleanup(CleanupEvent::Cleaned(Ok(()))), CleanupAction::Unregister(4));
    assert!(!cne.is_configured());
    assert_eq!(cne.thread_id(), 4);
}

#[test]
fn cleanup_releases_thread_zero() {
    let mut cne = configured("cne.jsonc", 0);
    assert_eq!(cne.cleanup(CleanupEvent::Cleaned(Ok(()))), CleanupAction::Unregister(0));
}

#[test]
fn cleanup_resets_the_state() {
    let mut cne = configured("cne.jsonc", 4);
    cne.cleanup(CleanupEvent::Cleaned(Ok(())));
    assert_eq!(cne.cleanup(CleanupEvent::Unregistered(Ok(()))), CleanupAction::Done(Ok(())));
    assert!(!cne.is_configured());
    assert_eq!(cne.thread_id(), -1);
}

#[test]
fn cleanup_keeps_a_configuration_that_could_not_be_cleaned() {
    let mut cne = configured("cne.jsonc", 4);
    assert_eq!(
        cne.cleanup(CleanupEvent::Cleaned(Err(port_error("busy")))),
        CleanupAction::Done(Err(port_error("busy")))
    );
    assert!(cne.is_configured());
    assert_eq!(cne.thread_id(), 4);
    assert_eq!(cne.config_mut(), Some(&mut ready("cne.jsonc")));
}

#[test]
fn cleanup_keeps_a_thread_that_could_not_be_released() {
    let mut cne = configured("cne.jsonc", 4);
    cne.cleanup(CleanupEvent::Cleaned(Ok(())));
    let e = CneError::RegisterError("Error unregistering thread with CNE".to_string());
    assert_eq!(
        cne.cleanup(CleanupEvent::Unregistered(Err(e))),
        CleanupAction::Done(Err(CneError::RegisterError(
            "Error unregistering thread with CNE".to_string()
        )))
    );
    assert!(!cne.is_configured());
    assert_eq!(cne.thread_id(), 4);
}

#[test]
fn cleanup_releases_a_thread_that_was_registered_before_loading_failed() {
    let mut cne: CneInstance<Config> = CneInstance::new();
    cne.configure("cne.jsonc", ConfigureEvent::Registered(Ok(6)));
    cne.configure("cne.jsonc", ConfigureEvent::Loaded(Err(port_error("unreadable"))));
    assert_eq!(cne.cleanup(CleanupEvent::Start), CleanupAction::Unregister(6));
    assert_eq!(cne.cleanup(CleanupEvent::Unregistered(Ok(()))), CleanupAction::Done(Ok(())));
    assert_eq!(cne.thread_id(), -1);
}

#[test]
fn cleanup_forgets_a_negative_thread_without_releasing_it() {
    let mut cne: CneInstance<Config> = CneInstance::new();
    cne.configure("cne.jsonc", ConfigureEvent::Registered(Ok(-7)));
    assert_eq!(cne.thread_id(), -7);
    assert_eq!(cne.cleanup(CleanupEvent::Start), CleanupAction::Done(Ok(())));
    assert_eq!(cne.thread_id(), -1);
}

#[test]
fn cleanup_goes_back_to_the_configuration_while_there_is_one() {
    let mut cne = configured("cne.jsonc", 4);
    assert_eq!(cne.cleanup(CleanupEvent::Unregistered(Ok(()))), CleanupAction::Clean);
    assert!(cne.is_configured());
    assert_eq!(cne.thread_id(), -1);
    assert_eq!(cne.cleanup(CleanupEvent::Cleaned(Ok(()))), CleanupAction::Done(Ok(())));
    assert!(!cne.is_configured());
}

#[test]
fn the_configuration_is_cleaned_in_place() {
    let mut cne = configured("cne.jsonc", 4);
    match cne.config_mut() {
        Some(cfg) => cfg.cleaned = true,
        None => panic!("no configuration"),
    }
    assert_eq!(
        cne.config_mut(),
        Some(&mut Config { file: "cne.jsonc".to_string(), set_up: true, cleaned: true })
    );
    assert_eq!(cne.thread_id(), 4);
}

#[test]
fn an_instance_can_be_configured_again_after_cleanup() {
    let mut cne = configured("first.jsonc", 4);
    cne.cleanup(CleanupEvent::Cleaned(Ok(())));
    cne.cleanup(CleanupEvent::Unregistered(Ok(())));
    assert_eq!(
        cne.configure("second.jsonc", ConfigureEvent::Start),
        ConfigureAction::Register("configure")
    );
    cne.configure("second.jsonc", ConfigureEvent::Registered(Ok(5)));
    cne.configure("second.jsonc", ConfigureEvent::SetUp(ready("second.jsonc"), Ok(())));
    assert_eq!(cne.thread_id(), 5);
    assert_eq!(cne.config_mut(), Some(&mut ready("second.jsonc")));
}
