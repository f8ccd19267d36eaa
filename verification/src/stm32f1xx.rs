//! The STM32F1 device family: pin and port identity, pin modes, interrupt
//! modes, and the typed peripheral lists a configuration holds for this
//! family.

use vstd::prelude::*;

use crate::device::{Baud, Hertz};
use crate::error::Error;
use crate::text::{
    eq_ignore_case, parse_number, spec_all_digits, spec_digits_val, spec_lower, spec_opt_str,
    NumError,
};

verus! {

/// A pin number within its port. Valid pins are numbered 0 to 15.
#[derive(Clone, Copy, Debug, PartialEq, Eq, Hash, Structural)]
pub struct Pin(pub usize);

/// A GPIO port: a physical group of 16 pins.
#[derive(Clone, Copy, Debug, PartialEq, Eq, Hash, Structural)]
pub enum Port {
    A,
    B,
    C,
    D,
    E,
}

/// The half of a port's configuration-register pair a pin belongs to:
/// `Low` for pins 0–7, `High` for pins 8–15.
#[derive(Clone, Copy, Debug, PartialEq, Eq, Structural)]
pub enum Bank {
    Low,
    High,
}

impl Pin {
    /// The register bank of this pin.
    pub fn bank(&self) -> (r: Bank)
        ensures
            r == Bank::Low <==> self.0 % 16 < 8,
    {
        if self.0 % 16 < 8 {
            Bank::Low
        } else {
            Bank::High
        }
    }

    /// The name of the control register that configures this pin:
    /// `crl` for the low bank, `crh` for the high bank.
    pub fn control_reg(&self) -> (r: &'static str)
        ensures
            self.0 % 16 < 8 ==> r@ == "crl"@,
            self.0 % 16 >= 8 ==> r@ == "crh"@,
    {
        if self.0 % 16 < 8 {
            "crl"
        } else {
            "crh"
        }
    }
}

/// Within a 16-pin port, a pin's bank is `Low` exactly when its number is
/// below 8.
pub proof fn lemma_bank_low_iff_below_eight(pin: Pin)
    requires
        pin.0 <= 15,
    ensures
        (pin.0 % 16 < 8) <==> pin.0 < 8,
{
}

impl Port {
    /// The lower-case channel name of this port, `gpioa` through `gpioe`.
    pub fn lower(&self) -> (r: &'static str)
        ensures
            r@ == spec_port_lower(*self),
    {
        match self {
            Port::A => "gpioa",
            Port::B => "gpiob",
            Port::C => "gpioc",
            Port::D => "gpiod",
            Port::E => "gpioe",
        }
    }

    /// The upper-case peripheral name of this port, `GPIOA` through `GPIOE`.
    pub fn upper(&self) -> (r: &'static str)
        ensures
            r@ == spec_port_upper(*self),
    {
        match self {
            Port::A => "GPIOA",
            Port::B => "GPIOB",
            Port::C => "GPIOC",
            Port::D => "GPIOD",
            Port::E => "GPIOE",
        }
    }

    /// The one-letter short name of this port, `a` through `e`.
    pub fn short(&self) -> (r: char)
        ensures
            r == spec_port_short(*self),
    {
        match self {
            Port::A => 'a',
            Port::B => 'b',
            Port::C => 'c',
            Port::D => 'd',
            Port::E => 'e',
        }
    }
}

/// The lower-case channel name of a port.
pub open spec fn spec_port_lower(p: Port) -> Seq<char> {
    match p {
        Port::A => "gpioa"@,
        Port::B => "gpiob"@,
        Port::C => "gpioc"@,
        Port::D => "gpiod"@,
        Port::E => "gpioe"@,
    }
}

/// The upper-case peripheral name of a port.
pub open spec fn spec_port_upper(p: Port) -> Seq<char> {
    match p {
        Port::A => "GPIOA"@,
        Port::B => "GPIOB"@,
        Port::C => "GPIOC"@,
        Port::D => "GPIOD"@,
        Port::E => "GPIOE"@,
    }
}

/// The one-letter short name of a port.
pub open spec fn spec_port_short(p: Port) -> char {
    match p {
        Port::A => 'a',
        Port::B => 'b',
        Port::C => 'c',
        Port::D => 'd',
        Port::E => 'e',
    }
}

/// The port a single letter names, if any.
pub open spec fn spec_port_of_char(c: char) -> Option<Port> {
    if c == 'a' || c == 'A' {
        Some(Port::A)
    } else if c == 'b' || c == 'B' {
        Some(Port::B)
    } else if c == 'c' || c == 'C' {
        Some(Port::C)
    } else if c == 'd' || c == 'D' {
        Some(Port::D)
    } else if c == 'e' || c == 'E' {
        Some(Port::E)
    } else {
        None
    }
}

/// A pin name with the optional leading `P`/`p` prefix removed.
pub open spec fn spec_strip_pin_prefix(s: Seq<char>) -> Seq<char> {
    if s.len() > 0 && (s[0] == 'p' || s[0] == 'P') {
        s.skip(1)
    } else {
        s
    }
}

/// The result of parsing a textual pin name such as `PA0` or `pb5`: the
/// optional prefix is dropped, the port letter must be `A`–`E` (either case),
/// and the rest must be a decimal pin number no greater than 15.
pub open spec fn spec_parse_pin(s: Seq<char>) -> Result<(Pin, Port), Error> {
    let t = spec_strip_pin_prefix(s);
    if t.len() == 0 {
        Err(Error::InvalidPinName)
    } else {
        match spec_port_of_char(t[0]) {
            Option::None => Err(Error::InvalidPinName),
            Option::Some(port) => {
                let d = t.skip(1);
                if !spec_all_digits(d) {
                    Err(Error::InvalidPinNumber)
                } else if spec_digits_val(d) > 15 {
                    Err(Error::PinOutOfRange)
                } else {
                    Ok((Pin(spec_digits_val(d) as usize), port))
                }
            },
        }
    }
}

/// How a GPIO pin of this family is configured.
#[derive(Clone, Copy, Debug, PartialEq, Eq, Hash, Structural)]
pub enum PinMode {
    InputFloating,
    InputPullUp,
    InputPullDown,
    OutputPushPull,
    OutputOpenDrain,
}

impl PinMode {
    /// Whether this mode configures the pin as an input.
    pub open spec fn spec_is_input(self) -> bool {
        match self {
            PinMode::InputFloating | PinMode::InputPullUp | PinMode::InputPullDown => true,
            PinMode::OutputPushPull | PinMode::OutputOpenDrain => false,
        }
    }

    /// Whether this mode configures the pin as an input.
    pub fn is_input(&self) -> (r: bool)
        ensures
            r == self.spec_is_input(),
    {
        match self {
            PinMode::InputFloating | PinMode::InputPullUp | PinMode::InputPullDown => true,
            PinMode::OutputPushPull | PinMode::OutputOpenDrain => false,
        }
    }

    /// The name of the configuration method that puts a pin into this mode.
    pub fn init_function_name(&self) -> (r: &'static str)
        ensures
            r@ == spec_init_function_name(*self),
    {
        match self {
            PinMode::InputFloating => "into_floating_input",
            PinMode::InputPullUp => "into_pull_up_input",
            PinMode::InputPullDown => "into_pull_down_input",
            PinMode::OutputPushPull => "into_push_pull_output",
            PinMode::OutputOpenDrain => "into_open_drain_output",
        }
    }

    /// The direction type name this mode implies: floating, pull-up and
    /// pull-down pins are inputs; push-pull and open-drain pins are outputs.
    pub fn direction_name(&self) -> (r: &'static str)
        ensures
            r@ == spec_direction_name(*self),
    {
        match self {
            PinMode::InputFloating => "Input",
            PinMode::InputPullUp => "Input",
            PinMode::InputPullDown => "Input",
            PinMode::OutputPushPull => "Output",
            PinMode::OutputOpenDrain => "Output",
        }
    }

    /// The mode type name used when the resulting pin type is spelled out.
    pub fn mode_name(&self) -> (r: &'static str)
        ensures
            r@ == spec_mode_name(*self),
    {
        match self {
            PinMode::InputFloating => "Floating",
            PinMode::InputPullUp => "PullUp",
            PinMode::InputPullDown => "PullDown",
            PinMode::OutputPushPull => "PushPull",
            PinMode::OutputOpenDrain => "OpenDrain",
        }
    }
}

/// The configuration-method name of a mode.
pub open spec fn spec_init_function_name(m: PinMode) -> Seq<char> {
    match m {
        PinMode::InputFloating => "into_floating_input"@,
        PinMode::InputPullUp => "into_pull_up_input"@,
        PinMode::InputPullDown => "into_pull_down_input"@,
        PinMode::OutputPushPull => "into_push_pull_output"@,
        PinMode::OutputOpenDrain => "into_open_drain_output"@,
    }
}

/// The direction type name of a mode.
pub open spec fn spec_direction_name(m: PinMode) -> Seq<char> {
    if m.spec_is_input() {
        "Input"@
    } else {
        "Output"@
    }
}

/// The mode type name of a mode.
pub open spec fn spec_mode_name(m: PinMode) -> Seq<char> {
    match m {
        PinMode::InputFloating => "Floating"@,
        PinMode::InputPullUp => "PullUp"@,
        PinMode::InputPullDown => "PullDown"@,
        PinMode::OutputPushPull => "PushPull"@,
        PinMode::OutputOpenDrain => "OpenDrain"@,
    }
}

/// Interrupt wiring requested for an input pin. `Disabled` means the pin
/// gets no interrupt wiring at all.
#[derive(Clone, Copy, Debug, PartialEq, Eq, Structural)]
pub enum InterruptMode {
    Disabled,
    Rising,
    Falling,
    RisingFalling,
}

impl InterruptMode {
    /// The edge identifier used when wiring the interrupt. Only pins with
    /// interrupt wiring have one.
    pub fn ident(&self) -> (r: &'static str)
        requires
            *self != InterruptMode::Disabled,
        ensures
            r@ == spec_edge_ident(*self),
    {
        match self {
            InterruptMode::Disabled => "",
            InterruptMode::Rising => "RISING",
            InterruptMode::Falling => "FALLING",
            InterruptMode::RisingFalling => "RISING_FALLING",
        }
    }
}

/// The interrupt mode a generic trigger-edge request stands for; absence
/// of a trigger means no interrupt wiring.
pub open spec fn spec_interrupt_of_edge(edge: Option<crate::types::TriggerEdge>) -> InterruptMode {
    match edge {
        Option::None => InterruptMode::Disabled,
        Option::Some(crate::types::TriggerEdge::Rising) => InterruptMode::Rising,
        Option::Some(crate::types::TriggerEdge::Falling) => InterruptMode::Falling,
        Option::Some(crate::types::TriggerEdge::All) => InterruptMode::RisingFalling,
    }
}

impl InterruptMode {
    /// The interrupt mode a generic trigger-edge request stands for.
    pub fn from_trigger_edge(edge: Option<crate::types::TriggerEdge>) -> (r: InterruptMode)
        ensures
            r == spec_interrupt_of_edge(edge),
    {
        match edge {
            Option::None => InterruptMode::Disabled,
            Option::Some(crate::types::TriggerEdge::Rising) => InterruptMode::Rising,
            Option::Some(crate::types::TriggerEdge::Falling) => InterruptMode::Falling,
            Option::Some(crate::types::TriggerEdge::All) => InterruptMode::RisingFalling,
        }
    }

    /// The generic trigger edge this mode asks for, if any; the round trip
    /// through `from_trigger_edge` gives this mode back.
    pub fn trigger_edge(&self) -> (r: Option<crate::types::TriggerEdge>)
        ensures
            spec_interrupt_of_edge(r) == *self,
    {
        match self {
            InterruptMode::Disabled => Option::None,
            InterruptMode::Rising => Option::Some(crate::types::TriggerEdge::Rising),
            InterruptMode::Falling => Option::Some(crate::types::TriggerEdge::Falling),
            InterruptMode::RisingFalling => Option::Some(crate::types::TriggerEdge::All),
        }
    }
}

/// The edge identifier of an interrupt mode.
pub open spec fn spec_edge_ident(m: InterruptMode) -> Seq<char> {
    match m {
        InterruptMode::Disabled => ""@,
        InterruptMode::Rising => "RISING"@,
        InterruptMode::Falling => "FALLING"@,
        InterruptMode::RisingFalling => "RISING_FALLING"@,
    }
}

/// One configured GPIO pin: its identity, mode, and interrupt wiring.
#[derive(Clone, Copy, Debug, PartialEq, Eq, Structural)]
pub struct Gpio {
    pub pin: Pin,
    pub port: Port,
    pub mode: PinMode,
    pub interrupt_mode: InterruptMode,
}

impl Gpio {
    /// Parses a textual pin name such as `PA0` or `pb5` into a pin and port.
    pub fn parse_pin(name: &str) -> (r: Result<(Pin, Port), Error>)
        ensures
            r == spec_parse_pin(name@),
    {
        let n = name.unicode_len();
        let mut k: usize = 0;
        if n > 0 {
            let c0 = name.get_char(0);
            if c0 == 'p' || c0 == 'P' {
                k = 1;
            }
        }
        proof {
            assert(spec_strip_pin_prefix(name@) =~= name@.skip(k as int));
        }
        if n == k {
            return Err(Error::InvalidPinName);
        }
        let pc = name.get_char(k);
        let port: Port = if pc == 'a' || pc == 'A' {
            Port::A
        } else if pc == 'b' || pc == 'B' {
            Port::B
        } else if pc == 'c' || pc == 'C' {
            Port::C
        } else if pc == 'd' || pc == 'D' {
            Port::D
        } else if pc == 'e' || pc == 'E' {
            Port::E
        } else {
            return Err(Error::InvalidPinName);
        };
        let digits = name.substring_char(k + 1, n);
        proof {
            assert(digits@ =~= name@.skip(k as int).skip(1));
        }
        match parse_number(digits, 15) {
            Ok(v) => Ok((Pin(v), port)),
            Err(NumError::NotANumber) => Err(Error::InvalidPinNumber),
            Err(NumError::TooLarge) => Err(Error::PinOutOfRange),
        }
    }
}

/// A timer peripheral identity.
#[derive(Clone, Copy, Debug, PartialEq, Eq, Structural)]
pub enum TimerID {
    Tim1,
    Tim2,
    Tim3,
}

impl TimerID {
    /// The peripheral-access name of this timer, `TIM1` through `TIM3`.
    pub fn pac_name(&self) -> (r: &'static str)
        ensures
            r@ == spec_timer_pac_name(*self),
    {
        match self {
            TimerID::Tim1 => "TIM1",
            TimerID::Tim2 => "TIM2",
            TimerID::Tim3 => "TIM3",
        }
    }
}

/// The peripheral-access name of a timer.
pub open spec fn spec_timer_pac_name(id: TimerID) -> Seq<char> {
    match id {
        TimerID::Tim1 => "TIM1"@,
        TimerID::Tim2 => "TIM2"@,
        TimerID::Tim3 => "TIM3"@,
    }
}

/// A timer block referenced by a PWM specification.
#[derive(Clone, Copy, Debug, PartialEq, Eq, Structural)]
pub struct Timer {
    pub id: TimerID,
}

/// The timer a name refers to; names are matched case-insensitively.
pub open spec fn spec_timer_from_str(s: Seq<char>) -> Result<Timer, Error> {
    if spec_lower(s) == "tim1"@ {
        Ok(Timer { id: TimerID::Tim1 })
    } else if spec_lower(s) == "tim2"@ {
        Ok(Timer { id: TimerID::Tim2 })
    } else if spec_lower(s) == "tim3"@ {
        Ok(Timer { id: TimerID::Tim3 })
    } else {
        Err(Error::UnknownPeripheralIdentity)
    }
}

impl Timer {
    /// Resolves a timer name such as `Tim2` (any case) to its identity.
    pub fn from_str(name: &str) -> (r: Result<Timer, Error>)
        ensures
            r == spec_timer_from_str(name@),
    {
        proof {
            reveal_strlit("tim1");
            reveal_strlit("tim2");
            reveal_strlit("tim3");
            assert(spec_lower("tim1"@) =~= "tim1"@);
            assert(spec_lower("tim2"@) =~= "tim2"@);
            assert(spec_lower("tim3"@) =~= "tim3"@);
        }
        if eq_ignore_case(name, "tim1") {
            Ok(Timer { id: TimerID::Tim1 })
        } else if eq_ignore_case(name, "tim2") {
            Ok(Timer { id: TimerID::Tim2 })
        } else if eq_ignore_case(name, "tim3") {
            Ok(Timer { id: TimerID::Tim3 })
        } else {
            Err(Error::UnknownPeripheralIdentity)
        }
    }
}

/// The input pin mode a mode alias names, matched case-insensitively.
pub open spec fn spec_input_mode(s: Seq<char>) -> Option<PinMode> {
    if spec_lower(s) == "pull_up"@ {
        Some(PinMode::InputPullUp)
    } else if spec_lower(s) == "pull_down"@ {
        Some(PinMode::InputPullDown)
    } else if spec_lower(s) == "floating"@ {
        Some(PinMode::InputFloating)
    } else {
        None
    }
}

/// The output pin mode a mode alias names, matched case-insensitively.
pub open spec fn spec_output_mode(s: Seq<char>) -> Option<PinMode> {
    if spec_lower(s) == "push_pull"@ {
        Some(PinMode::OutputPushPull)
    } else if spec_lower(s) == "open_drain"@ {
        Some(PinMode::OutputOpenDrain)
    } else {
        None
    }
}

/// The interrupt mode an optional trigger-edge alias names; absence means
/// no interrupt wiring.
pub open spec fn spec_interrupt_mode(o: Option<Seq<char>>) -> Option<InterruptMode> {
    match o {
        Option::None => Some(InterruptMode::Disabled),
        Option::Some(s) => if spec_lower(s) == "rising"@ {
            Some(InterruptMode::Rising)
        } else if spec_lower(s) == "falling"@ {
            Some(InterruptMode::Falling)
        } else if spec_lower(s) == "rising_falling"@ {
            Some(InterruptMode::RisingFalling)
        } else if spec_lower(s) == "none"@ {
            Some(InterruptMode::Disabled)
        } else {
            None
        },
    }
}

/// The result of assembling an input GPIO from its textual fields: the pin
/// name and the mode are required; the trigger edge is optional.
pub open spec fn spec_input_from_parts(
    pin: Option<Seq<char>>,
    mode: Option<Seq<char>>,
    irq: Option<Seq<char>>,
) -> Result<Gpio, Error> {
    match pin {
        Option::None => Err(Error::MissingRequiredField),
        Option::Some(pn) => match spec_parse_pin(pn) {
            Err(e) => Err(e),
            Ok((p, port)) => match mode {
                Option::None => Err(Error::MissingRequiredField),
                Option::Some(ms) => match spec_input_mode(ms) {
                    Option::None => Err(Error::UnknownMode),
                    Option::Some(m) => match spec_interrupt_mode(irq) {
                        Option::None => Err(Error::UnknownTriggerEdge),
                        Option::Some(im) => Ok(
                            Gpio { pin: p, port, mode: m, interrupt_mode: im },
                        ),
                    },
                },
            },
        },
    }
}

/// The result of assembling an output GPIO from its textual fields: both the
/// pin name and the mode are required, and outputs get no interrupt wiring.
pub open spec fn spec_output_from_parts(
    pin: Option<Seq<char>>,
    mode: Option<Seq<char>>,
) -> Result<Gpio, Error> {
    match pin {
        Option::None => Err(Error::MissingRequiredField),
        Option::Some(pn) => match spec_parse_pin(pn) {
            Err(e) => Err(e),
            Ok((p, port)) => match mode {
                Option::None => Err(Error::MissingRequiredField),
                Option::Some(ms) => match spec_output_mode(ms) {
                    Option::None => Err(Error::UnknownMode),
                    Option::Some(m) => Ok(
                        Gpio {
                            pin: p,
                            port,
                            mode: m,
                            interrupt_mode: InterruptMode::Disabled,
                        },
                    ),
                },
            },
        },
    }
}

impl Gpio {
    /// Assembles an input GPIO from its textual fields.
    pub fn input_from_parts(
        pin_name: Option<&str>,
        mode: Option<&str>,
        interrupt: Option<&str>,
    ) -> (r: Result<Gpio, Error>)
        ensures
            r == spec_input_from_parts(
                spec_opt_str(pin_name),
                spec_opt_str(mode),
                spec_opt_str(interrupt),
            ),
    {
        proof {
            reveal_strlit("pull_up");
            reveal_strlit("pull_down");
            reveal_strlit("floating");
            assert(spec_lower("pull_up"@) =~= "pull_up"@);
            assert(spec_lower("pull_down"@) =~= "pull_down"@);
            assert(spec_lower("floating"@) =~= "floating"@);
        }
        let pn = match pin_name {
            Option::Some(pn) => pn,
            Option::None => {
                return Err(Error::MissingRequiredField);
            },
        };
        let (pin, port) = match Self::parse_pin(pn) {
            Ok(pp) => pp,
            Err(e) => {
                return Err(e);
            },
        };
        let ms = match mode {
            Option::Some(ms) => ms,
            Option::None => {
                return Err(Error::MissingRequiredField);
            },
        };
        let m: PinMode = if eq_ignore_case(ms, "pull_up") {
            PinMode::InputPullUp
        } else if eq_ignore_case(ms, "pull_down") {
            PinMode::InputPullDown
        } else if eq_ignore_case(ms, "floating") {
            PinMode::InputFloating
        } else {
            return Err(Error::UnknownMode);
        };
        let im = match Self::parse_interrupt(interrupt) {
            Option::Some(im) => im,
            Option::None => {
                return Err(Error::UnknownTriggerEdge);
            },
        };
        Ok(Gpio { pin, port, mode: m, interrupt_mode: im })
    }

    /// Resolves the optional trigger-edge field of an input GPIO.
    fn parse_interrupt(interrupt: Option<&str>) -> (r: Option<InterruptMode>)
        ensures
            r == spec_interrupt_mode(spec_opt_str(interrupt)),
    {
        proof {
            reveal_strlit("rising");
            reveal_strlit("falling");
            reveal_strlit("rising_falling");
            reveal_strlit("none");
            assert(spec_lower("rising"@) =~= "rising"@);
            assert(spec_lower("falling"@) =~= "falling"@);
            assert(spec_lower("rising_falling"@) =~= "rising_falling"@);
            assert(spec_lower("none"@) =~= "none"@);
        }
        match interrupt {
            Option::None => Some(InterruptMode::Disabled),
            Option::Some(s) => if eq_ignore_case(s, "rising") {
                Some(InterruptMode::Rising)
            } else if eq_ignore_case(s, "falling") {
                Some(InterruptMode::Falling)
            } else if eq_ignore_case(s, "rising_falling") {
                Some(InterruptMode::RisingFalling)
            } else if eq_ignore_case(s, "none") {
                Some(InterruptMode::Disabled)
            } else {
                None
            },
        }
    }

    /// Assembles an output GPIO from its textual fields.
    pub fn output_from_parts(pin_name: Option<&str>, mode: Option<&str>) -> (r: Result<
        Gpio,
        Error,
    >)
        ensures
            r == spec_output_from_parts(spec_opt_str(pin_name), spec_opt_str(mode)),
    {
        proof {
            reveal_strlit("push_pull");
            reveal_strlit("open_drain");
            assert(spec_lower("push_pull"@) =~= "push_pull"@);
            assert(spec_lower("open_drain"@) =~= "open_drain"@);
        }
        let pn = match pin_name {
            Option::Some(pn) => pn,
            Option::None => {
                return Err(Error::MissingRequiredField);
            },
        };
        let (pin, port) = match Self::parse_pin(pn) {
            Ok(pp) => pp,
            Err(e) => {
                return Err(e);
            },
        };
        let ms = match mode {
            Option::Some(ms) => ms,
            Option::None => {
                return Err(Error::MissingRequiredField);
            },
        };
        let m: PinMode = if eq_ignore_case(ms, "push_pull") {
            PinMode::OutputPushPull
        } else if eq_ignore_case(ms, "open_drain") {
            PinMode::OutputOpenDrain
        } else {
            return Err(Error::UnknownMode);
        };
        Ok(Gpio { pin, port, mode: m, interrupt_mode: InterruptMode::Disabled })
    }
}

/// A serial-interface identity.
#[derive(Clone, Copy, Debug, PartialEq, Eq, Structural)]
pub enum SerialID {
    Usart1,
    Usart2,
    Usart3,
}

/// The serial interface a name refers to; names are matched
/// case-insensitively.
pub open spec fn spec_serial_id_from_str(s: Seq<char>) -> Result<SerialID, Error> {
    if spec_lower(s) == "usart1"@ {
        Ok(SerialID::Usart1)
    } else if spec_lower(s) == "usart2"@ {
        Ok(SerialID::Usart2)
    } else if spec_lower(s) == "usart3"@ {
        Ok(SerialID::Usart3)
    } else {
        Err(Error::UnknownPeripheralIdentity)
    }
}

impl SerialID {
    /// Resolves a serial-interface name such as `usart1` (any case).
    pub fn from_str(name: &str) -> (r: Result<SerialID, Error>)
        ensures
            r == spec_serial_id_from_str(name@),
    {
        proof {
            reveal_strlit("usart1");
            reveal_strlit("usart2");
            reveal_strlit("usart3");
            assert(spec_lower("usart1"@) =~= "usart1"@);
            assert(spec_lower("usart2"@) =~= "usart2"@);
            assert(spec_lower("usart3"@) =~= "usart3"@);
        }
        if eq_ignore_case(name, "usart1") {
            Ok(SerialID::Usart1)
        } else if eq_ignore_case(name, "usart2") {
            Ok(SerialID::Usart2)
        } else if eq_ignore_case(name, "usart3") {
            Ok(SerialID::Usart3)
        } else {
            Err(Error::UnknownPeripheralIdentity)
        }
    }

    /// The lower-case name of this interface, `usart1` through `usart3`.
    pub fn name(&self) -> (r: &'static str)
        ensures
            r@ == spec_serial_name(*self),
    {
        match self {
            SerialID::Usart1 => "usart1",
            SerialID::Usart2 => "usart2",
            SerialID::Usart3 => "usart3",
        }
    }

    /// The variant name of this interface, `Usart1` through `Usart3`.
    pub fn ident(&self) -> (r: &'static str)
        ensures
            r@ == spec_serial_ident(*self),
    {
        match self {
            SerialID::Usart1 => "Usart1",
            SerialID::Usart2 => "Usart2",
            SerialID::Usart3 => "Usart3",
        }
    }
}

impl SerialID {
    /// The peripheral-access name of this interface, `USART1` through
    /// `USART3`.
    pub fn pac_name(&self) -> (r: &'static str)
        ensures
            r@ == spec_serial_pac_name(*self),
    {
        match self {
            SerialID::Usart1 => "USART1",
            SerialID::Usart2 => "USART2",
            SerialID::Usart3 => "USART3",
        }
    }
}

/// The peripheral-access name of a serial interface.
pub open spec fn spec_serial_pac_name(id: SerialID) -> Seq<char> {
    match id {
        SerialID::Usart1 => "USART1"@,
        SerialID::Usart2 => "USART2"@,
        SerialID::Usart3 => "USART3"@,
    }
}

/// The lower-case name of a serial interface.
pub open spec fn spec_serial_name(id: SerialID) -> Seq<char> {
    match id {
        SerialID::Usart1 => "usart1"@,
        SerialID::Usart2 => "usart2"@,
        SerialID::Usart3 => "usart3"@,
    }
}

/// The variant name of a serial interface.
pub open spec fn spec_serial_ident(id: SerialID) -> Seq<char> {
    match id {
        SerialID::Usart1 => "Usart1"@,
        SerialID::Usart2 => "Usart2"@,
        SerialID::Usart3 => "Usart3"@,
    }
}

/// One configured serial interface: its identity, receive and transmit
/// pins, and baud rate.
#[derive(Clone, Copy, Debug, PartialEq, Eq)]
pub struct Serial {
    pub id: SerialID,
    pub rx: (Pin, Port),
    pub tx: (Pin, Port),
    pub baud_rate: Baud,
}

/// The result of assembling a serial block from its textual fields: the
/// interface name, both pins, and the baud rate are all required.
pub open spec fn spec_serial_from_parts(
    name: Option<Seq<char>>,
    rx: Option<Seq<char>>,
    tx: Option<Seq<char>>,
    baud: Option<i64>,
) -> Result<Serial, Error> {
    match name {
        Option::None => Err(Error::MissingRequiredField),
        Option::Some(n) => match spec_serial_id_from_str(n) {
            Err(e) => Err(e),
            Ok(id) => match rx {
                Option::None => Err(Error::MissingRequiredField),
                Option::Some(rxs) => match spec_parse_pin(rxs) {
                    Err(e) => Err(e),
                    Ok(rxp) => match tx {
                        Option::None => Err(Error::MissingRequiredField),
                        Option::Some(txs) => match spec_parse_pin(txs) {
                            Err(e) => Err(e),
                            Ok(txp) => match baud {
                                Option::None => Err(Error::MissingRequiredField),
                                Option::Some(b) => if 0 <= b <= u32::MAX {
                                    Ok(
                                        Serial {
                                            id,
                                            rx: rxp,
                                            tx: txp,
                                            baud_rate: Baud(b as u32),
                                        },
                                    )
                                } else {
                                    Err(Error::InvalidNumber)
                                },
                            },
                        },
                    },
                },
            },
        },
    }
}

impl Serial {
    /// Assembles a serial block from its textual fields.
    pub fn from_parts(
        name: Option<&str>,
        rx: Option<&str>,
        tx: Option<&str>,
        baud: Option<i64>,
    ) -> (r: Result<Serial, Error>)
        ensures
            r == spec_serial_from_parts(
                spec_opt_str(name),
                spec_opt_str(rx),
                spec_opt_str(tx),
                baud,
            ),
    {
        let n = match name {
            Option::Some(n) => n,
            Option::None => {
                return Err(Error::MissingRequiredField);
            },
        };
        let id = match SerialID::from_str(n) {
            Ok(id) => id,
            Err(e) => {
                return Err(e);
            },
        };
        let rxs = match rx {
            Option::Some(rxs) => rxs,
            Option::None => {
                return Err(Error::MissingRequiredField);
            },
        };
        let rxp = match Gpio::parse_pin(rxs) {
            Ok(p) => p,
            Err(e) => {
                return Err(e);
            },
        };
        let txs = match tx {
            Option::Some(txs) => txs,
            Option::None => {
                return Err(Error::MissingRequiredField);
            },
        };
        let txp = match Gpio::parse_pin(txs) {
            Ok(p) => p,
            Err(e) => {
                return Err(e);
            },
        };
        let b = match baud {
            Option::Some(b) => b,
            Option::None => {
                return Err(Error::MissingRequiredField);
            },
        };
        match Baud::from_i64(b) {
            Ok(baud_rate) => Ok(Serial { id, rx: rxp, tx: txp, baud_rate }),
            Err(e) => Err(e),
        }
    }
}

/// The result of parsing a list of pin names, keeping their order; the
/// first bad name decides the error.
pub open spec fn spec_parse_pins(names: Seq<Seq<char>>) -> Result<Seq<(Pin, Port)>, Error>
    decreases names.len(),
{
    if names.len() == 0 {
        Ok(Seq::empty())
    } else {
        match spec_parse_pin(names[0]) {
            Err(e) => Err(e),
            Ok(p) => match spec_parse_pins(names.skip(1)) {
                Err(e) => Err(e),
                Ok(rest) => Ok(seq![p] + rest),
            },
        }
    }
}

proof fn lemma_parse_pins_push(names: Seq<Seq<char>>, x: Seq<char>)
    ensures
        spec_parse_pins(names) matches Ok(r) ==> spec_parse_pins(names.push(x)) == (
        match spec_parse_pin(x) {
            Ok(p) => Ok::<Seq<(Pin, Port)>, Error>(r.push(p)),
            Err(e) => Err(e),
        }),
        spec_parse_pins(names) matches Err(e) ==> spec_parse_pins(names.push(x)) == Err::<
            Seq<(Pin, Port)>,
            Error,
        >(e),
    decreases names.len(),
{
    reveal_with_fuel(spec_parse_pins, 3);
    if names.len() == 0 {
        assert(names.push(x)[0] == x);
        assert(names.push(x).skip(1) =~= Seq::<Seq<char>>::empty());
        if spec_parse_pin(x) is Ok {
            let p = spec_parse_pin(x)->Ok_0;
            assert(seq![p] + Seq::<(Pin, Port)>::empty() =~= Seq::<(Pin, Port)>::empty().push(p));
        }
    } else {
        lemma_parse_pins_push(names.skip(1), x);
        assert(names.push(x)[0] == names[0]);
        assert(names.push(x).skip(1) =~= names.skip(1).push(x));
        if spec_parse_pins(names) is Ok && spec_parse_pin(x) is Ok {
            let r0 = spec_parse_pins(names.skip(1))->Ok_0;
            let p0 = spec_parse_pin(names[0])->Ok_0;
            let p = spec_parse_pin(x)->Ok_0;
            assert(seq![p0] + r0.push(p) =~= (seq![p0] + r0).push(p));
        }
    }
}

/// Parses a list of pin names, keeping their order.
pub fn parse_pins(names: &Vec<String>) -> (r: Result<Vec<(Pin, Port)>, Error>)
    ensures
        match r {
            Ok(pins) => spec_parse_pins(names@.map_values(|s: String| s@)) == Ok::<
                Seq<(Pin, Port)>,
                Error,
            >(pins@),
            Err(e) => spec_parse_pins(names@.map_values(|s: String| s@)) == Err::<
                Seq<(Pin, Port)>,
                Error,
            >(e),
        },
{
    let ghost views = names@.map_values(|s: String| s@);
    let mut pins: Vec<(Pin, Port)> = Vec::new();
    for i in 0..names.len()
        invariant
            views == names@.map_values(|s: String| s@),
            spec_parse_pins(views.take(i as int)) == Ok::<Seq<(Pin, Port)>, Error>(pins@),
    {
        proof {
            assert(views.take(i + 1).drop_last() =~= views.take(i as int));
            assert(views.take(i as int).push(views[i as int]) =~= views.take(i + 1));
            lemma_parse_pins_push(views.take(i as int), views[i as int]);
        }
        match Gpio::parse_pin(&names[i]) {
            Ok(p) => {
                pins.push(p);
            },
            Err(e) => {
                proof {
                    lemma_parse_pins_prefix_err(views, i + 1);
                }
                return Err(e);
            },
        }
    }
    proof {
        assert(views.take(names@.len() as int) =~= views);
    }
    Ok(pins)
}

proof fn lemma_parse_pins_prefix_err(names: Seq<Seq<char>>, i: int)
    requires
        0 <= i <= names.len(),
        spec_parse_pins(names.take(i)) is Err,
    ensures
        spec_parse_pins(names) == spec_parse_pins(names.take(i)),
    decreases names.len() - i,
{
    if i < names.len() {
        lemma_parse_pins_push(names.take(i), names[i]);
        assert(names.take(i).push(names[i]) =~= names.take(i + 1));
        lemma_parse_pins_prefix_err(names, i + 1);
    } else {
        assert(names.take(i) =~= names);
    }
}

/// One configured PWM block: its timer, the channel pins, and an optional
/// target frequency.
#[derive(Clone, Debug, PartialEq)]
pub struct PWM {
    pub timer: Timer,
    pub pins: Vec<(Pin, Port)>,
    pub frequency: Option<Hertz>,
}

/// The result of assembling a PWM block from its textual fields: the timer
/// name is required, the pin list is parsed in order, and the frequency is
/// optional.
pub open spec fn spec_pwm_from_parts(
    timer: Option<Seq<char>>,
    pins: Seq<Seq<char>>,
    freq: Option<Seq<char>>,
) -> Result<(Timer, Seq<(Pin, Port)>, Option<Hertz>), Error> {
    match timer {
        Option::None => Err(Error::MissingRequiredField),
        Option::Some(tn) => match crate::stm32f1xx::spec_timer_from_str(tn) {
            Err(e) => Err(e),
            Ok(t) => match spec_parse_pins(pins) {
                Err(e) => Err(e),
                Ok(ps) => match freq {
                    Option::None => Ok((t, ps, Option::None)),
                    Option::Some(fs) => match crate::device::spec_hertz_from_str(fs) {
                        Err(e) => Err(e),
                        Ok(f) => Ok((t, ps, Option::Some(f))),
                    },
                },
            },
        },
    }
}

impl PWM {
    /// Assembles a PWM block from its textual fields.
    pub fn from_parts(timer: Option<&str>, pins: &Vec<String>, freq: Option<&str>) -> (r: Result<
        PWM,
        Error,
    >)
        ensures
            match r {
                Ok(p) => spec_pwm_from_parts(
                    spec_opt_str(timer),
                    pins@.map_values(|s: String| s@),
                    spec_opt_str(freq),
                ) == Ok::<_, Error>((p.timer, p.pins@, p.frequency)),
                Err(e) => spec_pwm_from_parts(
                    spec_opt_str(timer),
                    pins@.map_values(|s: String| s@),
                    spec_opt_str(freq),
                ) == Err::<(Timer, Seq<(Pin, Port)>, Option<Hertz>), Error>(e),
            },
    {
        let tn = match timer {
            Option::Some(tn) => tn,
            Option::None => {
                return Err(Error::MissingRequiredField);
            },
        };
        let t = match Timer::from_str(tn) {
            Ok(t) => t,
            Err(e) => {
                return Err(e);
            },
        };
        let ps = match parse_pins(pins) {
            Ok(ps) => ps,
            Err(e) => {
                return Err(e);
            },
        };
        match freq {
            Option::None => Ok(PWM { timer: t, pins: ps, frequency: Option::None }),
            Option::Some(fs) => match Hertz::from_str(fs) {
                Ok(f) => Ok(PWM { timer: t, pins: ps, frequency: Option::Some(f) }),
                Err(e) => Err(e),
            },
        }
    }
}

/// The input and output GPIO lists of a configuration.
#[derive(Clone, Debug)]
pub struct Gpios {
    pub input: Vec<Gpio>,
    pub output: Vec<Gpio>,
}

/// The peripheral lists of an STM32F1 configuration.
#[derive(Clone, Debug)]
pub struct Stm32f1xxPeripherals {
    pub gpio: Gpios,
    pub timer: Vec<Timer>,
    pub pwm: Vec<PWM>,
    pub serial: Vec<Serial>,
}

/// The pin identities of a GPIO list, in order.
pub open spec fn spec_gpio_pins(gpios: Seq<Gpio>) -> Seq<(Pin, Port)> {
    gpios.map_values(|g: Gpio| (g.pin, g.port))
}

/// The channel pins of a PWM list, flattened in order.
pub open spec fn spec_pwm_pins(pwms: Seq<PWM>) -> Seq<(Pin, Port)> {
    pwms.flat_map(|p: PWM| p.pins@)
}

/// The pins of a serial list: transmit then receive, per block, in order.
pub open spec fn spec_serial_pins(serials: Seq<Serial>) -> Seq<(Pin, Port)> {
    serials.flat_map(|s: Serial| seq![s.tx, s.rx])
}

/// Every pin a configuration references, across all peripheral classes:
/// plain inputs, plain outputs, PWM channel pins, then serial pins.
pub open spec fn spec_used_gpios(p: &Stm32f1xxPeripherals) -> Seq<(Pin, Port)> {
    spec_gpio_pins(p.gpio.input@) + spec_gpio_pins(p.gpio.output@) + spec_pwm_pins(p.pwm@)
        + spec_serial_pins(p.serial@)
}

impl Stm32f1xxPeripherals {
    /// Collects every pin this configuration references, across all
    /// peripheral classes, in a fixed order.
    pub fn used_gpios(&self) -> (r: Vec<(Pin, Port)>)
        ensures
            r@ == spec_used_gpios(self),
    {
        crate::generation::collect_pins(&self.gpio.input, &self.gpio.output, &self.pwm,
            &self.serial)
    }
}

/// The decimal spelling of a pin number 0 to 15.
pub open spec fn spec_pin_dec(n: int) -> Seq<char> {
    if n == 0 {
        "0"@
    } else if n == 1 {
        "1"@
    } else if n == 2 {
        "2"@
    } else if n == 3 {
        "3"@
    } else if n == 4 {
        "4"@
    } else if n == 5 {
        "5"@
    } else if n == 6 {
        "6"@
    } else if n == 7 {
        "7"@
    } else if n == 8 {
        "8"@
    } else if n == 9 {
        "9"@
    } else if n == 10 {
        "10"@
    } else if n == 11 {
        "11"@
    } else if n == 12 {
        "12"@
    } else if n == 13 {
        "13"@
    } else if n == 14 {
        "14"@
    } else {
        "15"@
    }
}

/// The decimal spelling of a pin number 0 to 15.
pub fn pin_dec_str(n: usize) -> (r: &'static str)
    requires
        n <= 15,
    ensures
        r@ == spec_pin_dec(n as int),
{
    match n {
        0 => "0",
        1 => "1",
        2 => "2",
        3 => "3",
        4 => "4",
        5 => "5",
        6 => "6",
        7 => "7",
        8 => "8",
        9 => "9",
        10 => "10",
        11 => "11",
        12 => "12",
        13 => "13",
        14 => "14",
        _ => "15",
    }
}

/// The identifier of a configured pin, such as `pa0`.
pub open spec fn spec_gpio_ident(pin: Pin, port: Port) -> Seq<char> {
    (match port {
        Port::A => "pa"@,
        Port::B => "pb"@,
        Port::C => "pc"@,
        Port::D => "pd"@,
        Port::E => "pe"@,
    }) + spec_pin_dec(pin.0 as int)
}

/// Builds the identifier of a configured pin, such as `pa0`, from its port
/// short name and pin number.
pub fn gpio_ident(pin: Pin, port: Port) -> (r: String)
    requires
        pin.0 <= 15,
    ensures
        r@ == spec_gpio_ident(pin, port),
{
    let prefix = match port {
        Port::A => "pa",
        Port::B => "pb",
        Port::C => "pc",
        Port::D => "pd",
        Port::E => "pe",
    };
    String::from_str(prefix).concat(pin_dec_str(pin.0))
}

/// The short type name of a configured pin, such as `PA0`.
pub open spec fn spec_gpio_short_type(pin: Pin, port: Port) -> Seq<char> {
    (match port {
        Port::A => "PA"@,
        Port::B => "PB"@,
        Port::C => "PC"@,
        Port::D => "PD"@,
        Port::E => "PE"@,
    }) + spec_pin_dec(pin.0 as int)
}

/// Builds the short type name of a configured pin, such as `PA0`.
pub fn gpio_short_type(pin: Pin, port: Port) -> (r: String)
    requires
        pin.0 <= 15,
    ensures
        r@ == spec_gpio_short_type(pin, port),
{
    let prefix = match port {
        Port::A => "PA",
        Port::B => "PB",
        Port::C => "PC",
        Port::D => "PD",
        Port::E => "PE",
    };
    String::from_str(prefix).concat(pin_dec_str(pin.0))
}

} // verus!
