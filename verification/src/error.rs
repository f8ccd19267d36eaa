//! The closed error taxonomy. Every failure is detected as early as possible
//! (parse-time for field-level errors, validate-time for exclusivity,
//! plan-time for state errors) and is immediately fatal: planning either
//! returns a complete plan or a single error naming the first violated rule.

use vstd::prelude::*;

use crate::stm32f1xx::{Pin, Port};

verus! {

/// A fatal configuration or planning error.
#[derive(Clone, Copy, Debug, PartialEq, Eq, Structural)]
pub enum Error {
    /// A unit alias is not in the recognized set.
    UnknownUnit,
    /// A pin name does not start with a port letter A–E (after an optional
    /// `P`/`p` prefix).
    InvalidPinName,
    /// The text after the port letter is not a non-negative integer.
    InvalidPinNumber,
    /// A pin number exceeds 15.
    PinOutOfRange,
    /// A pin-mode alias is not in the recognized set.
    UnknownMode,
    /// An interrupt trigger-edge alias is not in the recognized set.
    UnknownTriggerEdge,
    /// The device-family name is not in the recognized set.
    UnknownDeviceKind,
    /// A timer or serial-interface name is not in the recognized set.
    UnknownPeripheralIdentity,
    /// A peripheral block lacks a field it requires.
    MissingRequiredField,
    /// A numeric field is not a number or does not fit its range.
    InvalidNumber,
    /// A physical pin is claimed by more than one peripheral role.
    DuplicatePinUse(Pin, Port),
    /// The clock-configuration builder was requested again after the one-way
    /// freeze into the final clock handle.
    ReacquireAfterFreeze,
}

} // verus!
