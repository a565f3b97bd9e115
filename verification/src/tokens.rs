//! Hand-off tokens: opaque ownership markers for the chip's peripheral
//! register space and clock configuration.
//!
//! On a generic target they are empty placeholders with a no-op constructor,
//! so application code keeps the same call contract across targets. They are
//! deliberately neither `Clone` nor `Copy`: once handed to the application
//! entry point there is no way to mint a second holder from the first.

use vstd::prelude::*;

verus! {

/// Exclusive ownership of the chip's peripheral register space.
pub struct Peripherals {}

/// Exclusive ownership of the chip's clock configuration.
pub struct Clocks {}

/// Builds the pair of hand-off tokens for a generic target.
///
/// The entry sequence calls this exactly once, at the hand-off stage; see
/// `crate::entry::handoff`, whose contract forbids a second construction
/// within one boot.
pub fn __rom_init_params() -> (Peripherals, Clocks) {
    (Peripherals {}, Clocks {})
}

} // verus!
