//! The port lookups that a configured instance forwards to its
//! configuration.
//!
//! The instance does not know what a port is. It knows whether there is a
//! configuration to ask, and forwards the question to it unchanged.

use vstd::prelude::*;
use crate::error::{outcome, CneError, CneErrorView};

verus! {

/// The message of the error for a lookup on an instance that holds no
/// configuration.
pub const NOT_CONFIGURED: &'static str = "Cannot find port. CNE is not configured";

/// Whether `r` is what a lookup gives on an instance whose configuration is
/// `cfg`: the configuration together with `key`, by which to look the port
/// up in it, or the error for an instance that is not configured.
pub open spec fn forwarded<C, K>(cfg: Option<C>, key: K, r: Result<(&C, K), CneError>) -> bool {
    match cfg {
        Some(c) => r == Ok::<(&C, K), CneError>((&c, key)),
        None => outcome(r) == Err::<(&C, K), CneErrorView>(
            CneErrorView::ConfigError(NOT_CONFIGURED@),
        ),
    }
}

} // verus!
