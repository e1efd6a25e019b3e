//! The two well-known local ports and the host they live on.

use vstd::prelude::*;

verus! {

/// Port on which the editor listens for click notifications.
pub const NVIM_LISTENER_PORT: u16 = 42070;

/// Port on which the preview accepts document updates.
pub const SERVER_PORT: u16 = 42069;

/// Octets of the loopback host both ports are bound to.
pub const LOOPBACK: [u8; 4] = [127, 0, 0, 1];

} // verus!
