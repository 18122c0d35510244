//! The errors that the instance reports.

use vstd::prelude::*;

verus! {

/// Why an operation on the instance failed. Each variant carries the message
/// that is shown to the user.
#[derive(Debug, Clone, PartialEq, Eq)]
pub enum CneError {
    /// The instance has no configuration, or the configuration is unusable.
    ConfigError(String),
    /// A port could not be reached, or a lock that guards the instance is
    /// poisoned.
    PortError(String),
    /// The runtime refused to register or to unregister a thread.
    RegisterError(String),
}

/// What a `CneError` says: its variant and the text of its message.
pub enum CneErrorView {
    ConfigError(Seq<char>),
    PortError(Seq<char>),
    RegisterError(Seq<char>),
}

impl View for CneError {
    type V = CneErrorView;

    open spec fn view(&self) -> CneErrorView {
        match self {
            CneError::ConfigError(m) => CneErrorView::ConfigError(m@),
            CneError::PortError(m) => CneErrorView::PortError(m@),
            CneError::RegisterError(m) => CneErrorView::RegisterError(m@),
        }
    }
}

/// A result with its error, if any, replaced by what the error says.
pub open spec fn outcome<T>(r: Result<T, CneError>) -> Result<T, CneErrorView> {
    match r {
        Ok(v) => Ok(v),
        Err(e) => Err(e@),
    }
}

impl CneError {
    /// The error for a lock whose holder panicked: a port error that carries
    /// the lock's own message.
    pub fn poisoned(message: String) -> (e: CneError)
        ensures
            e == CneError::PortError(message),
    {
        CneError::PortError(message)
    }

    /// The message that the error carries.
    pub fn message(&self) -> (m: &String)
        ensures
            *m == match *self {
                CneError::ConfigError(m) => m,
                CneError::PortError(m) => m,
                CneError::RegisterError(m) => m,
            },
    {
        match self {
            CneError::ConfigError(m) => m,
            CneError::PortError(m) => m,
            CneError::RegisterError(m) => m,
        }
    }
}

} // verus!
