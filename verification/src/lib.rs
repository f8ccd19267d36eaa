//! Turns a declarative description of a microcontroller's peripheral wiring
//! (clock speed, memory budget, GPIO pins, PWM channels, serial ports) into a
//! validated, dependency-ordered hardware initialization plan, plus a stable
//! description of the peripheral handles a caller will receive.
//!
//! The crate models the configuration tree, checks resource exclusivity (no
//! physical pin may serve two peripheral roles), and builds the ordered
//! operation sequence the silicon requires: singleton acquisition, clock tree,
//! shared bus preconditions, per-port split, per-pin configuration, interrupt
//! wiring, PWM and serial wiring. Document parsing (YAML) and code emission
//! are thin front/back ends kept outside the verified core.

pub mod config;
pub mod device;
pub mod error;
pub mod generation;
pub mod laws;
pub mod stm32f1xx;
pub mod text;
pub mod types;
pub mod validate;

pub use types::{Frequency, Log, Sys, UnitByte, UnitHz};
