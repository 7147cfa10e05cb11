//! Debug-message routing.
//!
//! [`RustLogDebugMessenger`] stands for the policy of forwarding driver debug
//! messages to the `log` facade. The type itself carries no state; the
//! routing, which talks to the logger and handles the driver's callback data,
//! lives with the caller that installs the messenger.

use vstd::prelude::*;

verus! {

/// A debug-messenger policy that forwards driver messages to the log facade,
/// picking the log level from the message severity.
#[derive(Debug, Default)]
pub struct RustLogDebugMessenger {}

impl RustLogDebugMessenger {
    /// Creates the messenger.
    pub fn new() -> Self {
        Self {  }
    }
}

} // verus!
