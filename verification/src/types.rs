//! Unit and frequency model, and the family-independent pin vocabulary:
//! clock and memory-size literals given as a (magnitude, unit) pair are
//! normalized into canonical scalar units; pin modes imply a direction and
//! carry the names used when the resulting types are spelled out.

use vstd::prelude::*;

use crate::error::Error;
use crate::text::{eq_ignore_case, spec_lower};

verus! {

/// Frequency units. A magnitude tagged with one of these multiplies by
/// 1, 10^3, 10^6 or 10^9 cycles per second.
#[derive(Clone, Copy, Debug, PartialEq, Eq, Structural)]
pub enum UnitHz {
    Hz,
    KHz,
    MHz,
    GHz,
}

/// Memory-size units. A magnitude tagged with one of these multiplies by
/// the corresponding power of 1024 bytes.
#[derive(Clone, Copy, Debug, PartialEq, Eq, Structural)]
pub enum UnitByte {
    Byte,
    KB,
    MB,
    GB,
}

/// Logging configuration placeholder; it carries no settings yet.
#[derive(Clone, Copy, Debug)]
pub struct Log {}

/// Bytes per kilobyte.
pub const BYTES_PER_KB: usize = 1024;

/// Bytes per megabyte.
pub const BYTES_PER_MB: usize = 1024 * 1024;

/// Bytes per gigabyte.
pub const BYTES_PER_GB: usize = 1024 * 1024 * 1024;

/// The frequency unit an alias names, matched case-insensitively. The
/// recognized aliases are `hz`, `k`/`khz`, `m`/`mhz` and `g`/`ghz`.
pub open spec fn spec_unit_hz_from_str(s: Seq<char>) -> Result<UnitHz, Error> {
    if spec_lower(s) == "hz"@ {
        Ok(UnitHz::Hz)
    } else if spec_lower(s) == "k"@ || spec_lower(s) == "khz"@ {
        Ok(UnitHz::KHz)
    } else if spec_lower(s) == "m"@ || spec_lower(s) == "mhz"@ {
        Ok(UnitHz::MHz)
    } else if spec_lower(s) == "g"@ || spec_lower(s) == "ghz"@ {
        Ok(UnitHz::GHz)
    } else {
        Err(Error::UnknownUnit)
    }
}

impl UnitHz {
    /// Resolves a frequency-unit alias; any alias outside the recognized
    /// set is an unknown unit.
    pub fn from_str(name: &str) -> (r: Result<UnitHz, Error>)
        ensures
            r == spec_unit_hz_from_str(name@),
    {
        proof {
            reveal_strlit("hz");
            reveal_strlit("k");
            reveal_strlit("khz");
            reveal_strlit("m");
            reveal_strlit("mhz");
            reveal_strlit("g");
            reveal_strlit("ghz");
            assert(spec_lower("hz"@) =~= "hz"@);
            assert(spec_lower("k"@) =~= "k"@);
            assert(spec_lower("khz"@) =~= "khz"@);
            assert(spec_lower("m"@) =~= "m"@);
            assert(spec_lower("mhz"@) =~= "mhz"@);
            assert(spec_lower("g"@) =~= "g"@);
            assert(spec_lower("ghz"@) =~= "ghz"@);
        }
        if eq_ignore_case(name, "hz") {
            Ok(UnitHz::Hz)
        } else if eq_ignore_case(name, "k") || eq_ignore_case(name, "khz") {
            Ok(UnitHz::KHz)
        } else if eq_ignore_case(name, "m") || eq_ignore_case(name, "mhz") {
            Ok(UnitHz::MHz)
        } else if eq_ignore_case(name, "g") || eq_ignore_case(name, "ghz") {
            Ok(UnitHz::GHz)
        } else {
            Err(Error::UnknownUnit)
        }
    }
}

/// The memory-size unit an alias names, matched case-insensitively. The
/// recognized aliases are `byte`/`b`, `k`/`kb`, `m`/`mb` and `g`/`gb`.
pub open spec fn spec_unit_byte_from_str(s: Seq<char>) -> Result<UnitByte, Error> {
    if spec_lower(s) == "byte"@ || spec_lower(s) == "b"@ {
        Ok(UnitByte::Byte)
    } else if spec_lower(s) == "k"@ || spec_lower(s) == "kb"@ {
        Ok(UnitByte::KB)
    } else if spec_lower(s) == "m"@ || spec_lower(s) == "mb"@ {
        Ok(UnitByte::MB)
    } else if spec_lower(s) == "g"@ || spec_lower(s) == "gb"@ {
        Ok(UnitByte::GB)
    } else {
        Err(Error::UnknownUnit)
    }
}

impl UnitByte {
    /// Resolves a memory-size-unit alias; any alias outside the recognized
    /// set is an unknown unit.
    pub fn from_str(name: &str) -> (r: Result<UnitByte, Error>)
        ensures
            r == spec_unit_byte_from_str(name@),
    {
        proof {
            reveal_strlit("byte");
            reveal_strlit("b");
            reveal_strlit("k");
            reveal_strlit("kb");
            reveal_strlit("m");
            reveal_strlit("mb");
            reveal_strlit("g");
            reveal_strlit("gb");
            assert(spec_lower("byte"@) =~= "byte"@);
            assert(spec_lower("b"@) =~= "b"@);
            assert(spec_lower("k"@) =~= "k"@);
            assert(spec_lower("kb"@) =~= "kb"@);
            assert(spec_lower("m"@) =~= "m"@);
            assert(spec_lower("mb"@) =~= "mb"@);
            assert(spec_lower("g"@) =~= "g"@);
            assert(spec_lower("gb"@) =~= "gb"@);
        }
        if eq_ignore_case(name, "byte") || eq_ignore_case(name, "b") {
            Ok(UnitByte::Byte)
        } else if eq_ignore_case(name, "k") || eq_ignore_case(name, "kb") {
            Ok(UnitByte::KB)
        } else if eq_ignore_case(name, "m") || eq_ignore_case(name, "mb") {
            Ok(UnitByte::MB)
        } else if eq_ignore_case(name, "g") || eq_ignore_case(name, "gb") {
            Ok(UnitByte::GB)
        } else {
            Err(Error::UnknownUnit)
        }
    }
}

/// A frequency, as a single non-negative count of cycles per second.
#[derive(Clone, Copy, Debug, PartialEq, Eq, Structural)]
pub struct Frequency(pub u32);

/// The scalar value of a (magnitude, frequency unit) pair, in hertz.
pub open spec fn spec_frequency(value: u32, unit: UnitHz) -> int {
    match unit {
        UnitHz::Hz => value as int,
        UnitHz::KHz => value * 1000,
        UnitHz::MHz => value * 1000 * 1000,
        UnitHz::GHz => value * 1000 * 1000 * 1000,
    }
}

impl Frequency {
    /// Normalizes a (magnitude, unit) pair into a frequency in hertz.
    pub fn from(pair: &(u32, UnitHz)) -> (r: Frequency)
        requires
            spec_frequency(pair.0, pair.1) <= u32::MAX,
        ensures
            r.0 == spec_frequency(pair.0, pair.1),
    {
        let value = pair.0;
        match pair.1 {
            UnitHz::Hz => Self::hertz(value),
            UnitHz::KHz => Self::kilo_hertz(value),
            UnitHz::MHz => Self::mega_hertz(value),
            UnitHz::GHz => Self::giga_hertz(value),
        }
    }

    /// A frequency given directly in hertz.
    pub fn hertz(hertz: u32) -> (r: Frequency)
        ensures
            r.0 == hertz,
    {
        Frequency(hertz)
    }

    /// A frequency given in kilohertz.
    pub fn kilo_hertz(hertz: u32) -> (r: Frequency)
        requires
            hertz * 1000 <= u32::MAX,
        ensures
            r.0 == hertz * 1000,
    {
        Frequency(hertz * 1000)
    }

    /// A frequency given in megahertz.
    pub fn mega_hertz(hertz: u32) -> (r: Frequency)
        requires
            hertz * 1000 * 1000 <= u32::MAX,
        ensures
            r.0 == hertz * 1000 * 1000,
    {
        Frequency(hertz * 1000 * 1000)
    }

    /// A frequency given in gigahertz.
    pub fn giga_hertz(hertz: u32) -> (r: Frequency)
        requires
            hertz * 1000 * 1000 * 1000 <= u32::MAX,
        ensures
            r.0 == hertz * 1000 * 1000 * 1000,
    {
        Frequency(hertz * 1000 * 1000 * 1000)
    }
}

/// System-wide settings of a device configuration: an optional system clock,
/// the heap budget, and an optional logging configuration.
#[derive(Clone, Copy, Debug)]
pub struct Sys {
    pub sys_clock: Option<(u32, UnitHz)>,
    pub heap_size: (usize, UnitByte),
    pub log: Option<Log>,
}

/// The heap budget of a configuration, in bytes.
pub open spec fn spec_heap_size(sys: Sys) -> int {
    match sys.heap_size.1 {
        UnitByte::Byte => sys.heap_size.0 as int,
        UnitByte::KB => sys.heap_size.0 * BYTES_PER_KB,
        UnitByte::MB => sys.heap_size.0 * BYTES_PER_MB,
        UnitByte::GB => sys.heap_size.0 * BYTES_PER_GB,
    }
}

/// The system clock of a configuration, in hertz, if one was specified.
pub open spec fn spec_sys_clock(sys: Sys) -> Option<int> {
    match sys.sys_clock {
        Some((value, unit)) => Some(spec_frequency(value, unit)),
        None => None,
    }
}

impl Sys {
    /// The heap budget in bytes.
    pub fn heap_size(&self) -> (r: usize)
        requires
            spec_heap_size(*self) <= usize::MAX,
        ensures
            r == spec_heap_size(*self),
    {
        match self.heap_size.1 {
            UnitByte::Byte => self.heap_size.0,
            UnitByte::KB => self.heap_size.0 * BYTES_PER_KB,
            UnitByte::MB => self.heap_size.0 * BYTES_PER_MB,
            UnitByte::GB => self.heap_size.0 * BYTES_PER_GB,
        }
    }

    /// The system clock in hertz, if one was specified.
    pub fn sys_clock(&self) -> (r: Option<usize>)
        requires
            spec_sys_clock(*self) matches Some(hz) ==> hz <= u32::MAX,
        ensures
            r is Some <==> spec_sys_clock(*self) is Some,
            r matches Some(hz) ==> spec_sys_clock(*self) == Some(hz as int),
    {
        match &self.sys_clock {
            Some(pair) => Some(Frequency::from(pair).0 as usize),
            None => None,
        }
    }
}

/// The direction a pin is configured for.
#[derive(Clone, Copy, Debug, PartialEq, Eq, Structural)]
pub enum Direction {
    Input,
    Output,
}

impl Direction {
    /// The type name of this direction, as used when the resulting pin
    /// type is spelled out.
    pub fn to_type_string(&self) -> (r: String)
        ensures
            *self == Direction::Input ==> r@ == "Input"@,
            *self == Direction::Output ==> r@ == "Output"@,
    {
        match self {
            Direction::Input => String::from_str("Input"),
            Direction::Output => String::from_str("Output"),
        }
    }
}

/// The trigger edge of an interrupt-wired input pin; a pin without one
/// gets no interrupt wiring at all.
#[derive(Clone, Copy, Debug, PartialEq, Eq, Hash, Structural)]
pub enum TriggerEdge {
    Rising,
    Falling,
    All,
}

/// The family-independent pin modes. Each mode implies a direction:
/// analog, floating, pull-down and pull-up pins are inputs; push-pull and
/// open-drain pins are outputs.
#[derive(Clone, Copy, Debug, PartialEq, Eq, Hash, Structural)]
pub enum PinMode {
    Analog,
    Floating,
    OpenDrain,
    PullDown,
    PullUp,
    PushPull,
}

/// The direction a pin mode implies.
pub open spec fn spec_mode_direction(m: PinMode) -> Direction {
    match m {
        PinMode::Analog | PinMode::Floating | PinMode::PullDown | PinMode::PullUp => {
            Direction::Input
        },
        PinMode::OpenDrain | PinMode::PushPull => Direction::Output,
    }
}

/// The lower-case name of a pin mode.
pub open spec fn spec_mode_string(m: PinMode) -> Seq<char> {
    match m {
        PinMode::Analog => "analog"@,
        PinMode::Floating => "floating"@,
        PinMode::OpenDrain => "open_drain"@,
        PinMode::PullDown => "pull_down"@,
        PinMode::PullUp => "pull_up"@,
        PinMode::PushPull => "push_pull"@,
    }
}

/// The type name of a pin mode.
pub open spec fn spec_mode_type_string(m: PinMode) -> Seq<char> {
    match m {
        PinMode::Analog => "Analog"@,
        PinMode::Floating => "Floating"@,
        PinMode::OpenDrain => "OpenDrain"@,
        PinMode::PullDown => "PullDown"@,
        PinMode::PullUp => "PullUp"@,
        PinMode::PushPull => "PushPull"@,
    }
}

impl PinMode {
    /// The direction this mode implies.
    pub fn direction(&self) -> (r: Direction)
        ensures
            r == spec_mode_direction(*self),
    {
        match self {
            PinMode::Analog | PinMode::Floating | PinMode::PullDown | PinMode::PullUp => {
                Direction::Input
            },
            PinMode::OpenDrain | PinMode::PushPull => Direction::Output,
        }
    }

    /// The lower-case name of this mode.
    pub fn to_string(&self) -> (r: String)
        ensures
            r@ == spec_mode_string(*self),
    {
        match self {
            PinMode::Analog => String::from_str("analog"),
            PinMode::Floating => String::from_str("floating"),
            PinMode::OpenDrain => String::from_str("open_drain"),
            PinMode::PullDown => String::from_str("pull_down"),
            PinMode::PullUp => String::from_str("pull_up"),
            PinMode::PushPull => String::from_str("push_pull"),
        }
    }

    /// The type name of this mode, as used when the resulting pin type is
    /// spelled out.
    pub fn to_type_string(&self) -> (r: String)
        ensures
            r@ == spec_mode_type_string(*self),
    {
        match self {
            PinMode::Analog => String::from_str("Analog"),
            PinMode::Floating => String::from_str("Floating"),
            PinMode::OpenDrain => String::from_str("OpenDrain"),
            PinMode::PullDown => String::from_str("PullDown"),
            PinMode::PullUp => String::from_str("PullUp"),
            PinMode::PushPull => String::from_str("PushPull"),
        }
    }
}

} // verus!
