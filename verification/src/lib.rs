//! Model of a RISC-V ROM-stage runtime: the boot-identification header that a
//! mask-ROM loader reads to accept an image, and the entry sequence that turns
//! raw post-reset silicon state into an environment fit for application code.
//!
//! The entry sequence is expressed as a linear series of stages acting on a
//! simulated machine state, so the order-sensitive startup logic can be proved
//! and exercised without real hardware: enable the instruction-set extension,
//! invalidate caches and predictors, disable interrupts, establish a stack,
//! zero the uninitialized-data region, materialize the initialized-data
//! region, hand ownership tokens to the application entry point, and halt if
//! that entry point ever returns.

pub mod entry;
pub mod header;
pub mod machine;
pub mod tokens;

pub use header::EgonHead;
pub use header::egon_head;
pub use tokens::Clocks;
pub use tokens::Peripherals;
pub use tokens::__rom_init_params;
