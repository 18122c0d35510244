//! The instance and its operations.

use vstd::prelude::*;
use crate::error::CneError;
use crate::lifecycle::{
    cleanup_step, configure_step, pristine, CleanupAction, CleanupEvent, ConfigureAction,
    ConfigureEvent, CONFIGURE_THREAD,
};
use crate::port::{forwarded, NOT_CONFIGURED};
use crate::thread::{
    register_answer, unregister_answer, RegisterAction, RegisterEvent, UnregisterAction,
    UnregisterEvent, REGISTER_FAILED, UNREGISTER_FAILED,
};

verus! {

/// The state of the runtime instance of a process: the configuration that it
/// runs with, if it has one, and the thread that configured it.
///
/// `C` is the configuration as the runtime holds it. The instance stores it
/// and hands it out; it never looks inside.
#[derive(Debug)]
pub struct CneInstance<C> {
    cfg: Option<C>,
    tid: i32,
}

/// What an instance holds.
pub struct InstanceView<C> {
    /// The configuration, once the instance is configured.
    pub cfg: Option<C>,
    /// The identifier of the thread that configured the instance; negative
    /// while there is none.
    pub tid: i32,
}

impl<C> View for CneInstance<C> {
    type V = InstanceView<C>;

    closed spec fn view(&self) -> InstanceView<C> {
        InstanceView { cfg: self.cfg, tid: self.tid }
    }
}

impl<C> CneInstance<C> {
    /// An instance that holds no configuration and no thread.
    pub fn new() -> (instance: Self)
        ensures
            instance@ == pristine::<C>(),
    {
        CneInstance { cfg: None, tid: -1 }
    }

    /// Whether the instance holds a configuration.
    pub fn is_configured(&self) -> (b: bool)
        ensures
            b == (self@.cfg is Some),
    {
        self.cfg.is_some()
    }

    /// The identifier of the thread that configured the instance; negative
    /// while there is none.
    pub fn thread_id(&self) -> (tid: i32)
        ensures
            tid == self@.tid,
    {
        self.tid
    }

    /// The configuration of the instance, to be changed in place.
    pub fn config_mut(&mut self) -> (r: Option<&mut C>)
        ensures
            match r {
                Some(c) => old(self)@.cfg == Some(*c) && final(self)@ == (InstanceView {
                    cfg: Some(*final(c)),
                    tid: old(self)@.tid,
                }),
                None => old(self)@.cfg is None && final(self)@ == old(self)@,
            },
    {
        match &mut self.cfg {
            Some(c) => Some(c),
            None => None,
        }
    }

    /// One step of registering the calling thread under the name `s`.
    ///
    /// The operation first asks for the identifier that the runtime has for
    /// the thread. A thread that has one keeps it. Otherwise the thread is
    /// registered, and a negative answer to that is an error.
    pub fn register_thread<'a>(s: &'a str, event: RegisterEvent) -> (action: RegisterAction<'a>)
        ensures
            register_answer(s, event, action),
    {
        match event {
            RegisterEvent::Start => RegisterAction::QueryThread,
            RegisterEvent::ThreadId(tid) => {
                if tid >= 0 {
                    RegisterAction::Done(Ok(tid))
                } else {
                    RegisterAction::Register(s)
                }
            },
            RegisterEvent::Registered(tid) => {
                if tid >= 0 {
                    RegisterAction::Done(Ok(tid))
                } else {
                    RegisterAction::Done(
                        Err(CneError::RegisterError(REGISTER_FAILED.to_string())),
                    )
                }
            },
        }
    }

    /// One step of unregistering the thread `tid`: the runtime is asked to
    /// release it, and a negative answer is an error.
    pub fn unregister_thread(tid: i32, event: UnregisterEvent) -> (action: UnregisterAction)
        ensures
            unregister_answer(tid, event, action),
    {
        match event {
            UnregisterEvent::Start => UnregisterAction::Unregister(tid),
            UnregisterEvent::Returned(code) => {
                if code >= 0 {
                    UnregisterAction::Done(Ok(()))
                } else {
                    UnregisterAction::Done(
                        Err(CneError::RegisterError(UNREGISTER_FAILED.to_string())),
                    )
                }
            },
        }
    }

    /// One step of configuring the instance from the file `jsonc_file`.
    ///
    /// On a configured instance this changes nothing and reports success.
    pub fn configure<'a>(&mut self, jsonc_file: &'a str, event: ConfigureEvent<C>) -> (action:
        ConfigureAction<'a, C>)
        ensures
            (final(self)@, action) == configure_step(old(self)@, jsonc_file, event),
            old(self)@.cfg is Some ==> final(self)@ == old(self)@ && action
                == ConfigureAction::<C>::Done(Ok(())),
            action == ConfigureAction::<C>::Done(Ok(())) ==> final(self)@.cfg is Some,
    {
        if self.cfg.is_some() {
            return ConfigureAction::Done(Ok(()));
        }
        match event {
            ConfigureEvent::Start => ConfigureAction::Register(CONFIGURE_THREAD),
            ConfigureEvent::Registered(Ok(tid)) => {
                self.tid = tid;
                ConfigureAction::Load(jsonc_file)
            },
            ConfigureEvent::Registered(Err(e)) => ConfigureAction::Done(Err(e)),
            ConfigureEvent::Loaded(Ok(cfg)) => ConfigureAction::SetUp(cfg),
            ConfigureEvent::Loaded(Err(e)) => ConfigureAction::Done(Err(e)),
            ConfigureEvent::SetUp(cfg, Ok(_)) => {
                self.cfg = Some(cfg);
                ConfigureAction::Done(Ok(()))
            },
            ConfigureEvent::SetUp(_, Err(e)) => ConfigureAction::Done(Err(e)),
        }
    }

    /// One step of cleaning the instance up.
    ///
    /// When this reports success, the instance holds no configuration and no
    /// thread. It asks to clean only a configuration that it holds, and to
    /// unregister only a thread that it holds, after the configuration is
    /// gone.
    pub fn cleanup(&mut self, event: CleanupEvent) -> (action: CleanupAction)
        ensures
            (final(self)@, action) == cleanup_step(old(self)@, event),
            action == CleanupAction::Done(Ok(())) ==> final(self)@ == pristine::<C>(),
            action == CleanupAction::Clean ==> final(self)@.cfg is Some,
            action matches CleanupAction::Unregister(tid) ==> tid >= 0 && final(self)@ == (
            InstanceView::<C> { cfg: None, tid }),
    {
        match event {
            CleanupEvent::Start => {},
            CleanupEvent::Cleaned(Ok(_)) => {
                self.cfg = None;
            },
            CleanupEvent::Cleaned(Err(e)) => {
                return CleanupAction::Done(Err(e));
            },
            CleanupEvent::Unregistered(Ok(_)) => {
                self.tid = -1;
            },
            CleanupEvent::Unregistered(Err(e)) => {
                return CleanupAction::Done(Err(e));
            },
        }
        if self.cfg.is_some() {
            CleanupAction::Clean
        } else if self.tid >= 0 {
            CleanupAction::Unregister(self.tid)
        } else {
            self.tid = -1;
            CleanupAction::Done(Ok(()))
        }
    }

    /// Where to look up the port with the index `port_index`: in the
    /// configuration of the instance, under that index. Fails if the
    /// instance is not configured.
    pub fn get_port(&self, port_index: u16) -> (r: Result<(&C, u16), CneError>)
        ensures
            forwarded(self@.cfg, port_index, r),
    {
        self.forward(port_index)
    }

    /// Where to look up the port with the name `port_name`: in the
    /// configuration of the instance, under that name. Fails if the instance
    /// is not configured.
    pub fn get_port_by_name<'a, 'n>(&'a self, port_name: &'n str) -> (r: Result<
        (&'a C, &'n str),
        CneError,
    >)
        ensures
            forwarded(self@.cfg, port_name, r),
    {
        self.forward(port_name)
    }

    /// Where to look up the packet buffer pool of the port with the index
    /// `port_index`: in the configuration of the instance, under that index.
    /// Fails if the instance is not configured.
    pub fn get_port_pktmbuf_pool(&self, port_index: u16) -> (r: Result<(&C, u16), CneError>)
        ensures
            forwarded(self@.cfg, port_index, r),
    {
        self.forward(port_index)
    }

    fn forward<K>(&self, key: K) -> (r: Result<(&C, K), CneError>)
        ensures
            forwarded(self@.cfg, key, r),
    {
        match &self.cfg {
            Some(cfg) => Ok((cfg, key)),
            None => Err(CneError::ConfigError(NOT_CONFIGURED.to_string())),
        }
    }
}

} // verus!
