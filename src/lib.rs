//! A multi-user chat server's core: the broadcast hub, the per-connection
//! session state machine and the credential checks against stored users.
pub mod credentials;
pub mod hub;
pub mod session;

use vstd::prelude::*;

verus! {

/// Number of payloads each subscription may hold before it lags.
pub const DEFAULT_CAPACITY: usize = 100;

} // verus!
