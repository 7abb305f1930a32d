//! Subjects of the hardware setup service.

use vstd::prelude::*;

verus! {

/// Enter setup mode.
pub const ARM: &'static str = "hardware-setup.v1.arm";

/// Leave setup mode.
pub const DISARM: &'static str = "hardware-setup.v1.disarm";

/// Live pin states while in setup mode.
pub const LIVE_STATE: &'static str = "hardware-setup.v1.live.state";

} // verus!
