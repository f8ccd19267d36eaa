//! The dependency-ordered initialization planner and the device-family
//! lowering strategies. The planner walks a small fixed dependency graph of
//! at-most-once hardware resources (device singleton, flash, bus controller,
//! clock-configuration builder, alternate-function controller, per-port
//! splits) through memoized accessors, and emits the ordered operation
//! sequence plus the fixed-order layout of the resulting handles.

use vstd::prelude::*;

use crate::device::Hertz;
use crate::error::Error;
use crate::stm32f1xx::{
    spec_gpio_pins, spec_pwm_pins, spec_serial_pins, Gpio, InterruptMode, Pin, PinMode, Port,
    Serial, SerialID, TimerID, PWM,
};
use crate::validate::{check_pins, spec_check_pins};

verus! {

/// One abstract initialization operation. Operations are opaque to callers:
/// a separate back end renders them into concrete code.
#[derive(Clone, Copy, Debug, PartialEq, Eq, Structural)]
pub enum Op {
    /// Import a module path into the generated scope.
    Import(ImportKind),
    /// Declare the uninitialized static storage of a handle group.
    DeclareStatics(Group),
    /// Acquire the device singleton.
    TakePeripherals,
    /// Constrain the flash peripheral into a handle.
    ConstrainFlash,
    /// Constrain the bus controller (the RCC) into a handle.
    ConstrainRcc,
    /// Take the clock-configuration builder out of the bus controller.
    TakeCfgr,
    /// Apply the target system-clock frequency, in hertz.
    ApplySysClock(usize),
    /// Freeze the clock configuration into the final clock handle; the
    /// builder cannot be reused afterwards.
    FreezeClocks,
    /// Constrain the alternate-function controller (the AFIO).
    ConstrainAfio,
    /// Split one GPIO port into its per-pin handles.
    SplitPort(Port),
    /// Configure one pin into the given mode against its split port.
    ConfigurePin(Pin, Port, PinMode),
    /// Route the pin to the external-interrupt controller.
    MakeInterruptSource(Pin, Port),
    /// Select the trigger edge for the pin's interrupt line.
    TriggerOnEdge(Pin, Port, InterruptMode),
    /// Enable the pin's interrupt line.
    EnableInterrupt(Pin, Port),
    /// Wire one PWM channel pin to its timer.
    ConfigurePwmChannel(TimerID, Pin, Port),
    /// Set the target frequency of a PWM timer, in hertz.
    SetPwmFrequency(TimerID, usize),
    /// Configure a serial interface at the given baud rate.
    ConfigureSerial(SerialID, u32),
    /// Unmask the external-interrupt line of a pin.
    UnmaskExti(Pin),
    /// Unmask the interrupt line of a serial interface.
    UnmaskSerial(SerialID),
}

/// The module imports the STM32F1 lowering contributes to the preamble.
#[derive(Clone, Copy, Debug, PartialEq, Eq, Structural)]
pub enum ImportKind {
    Prelude,
    GpioModule,
    TimerModule,
    PwmModule,
    PacModule,
    SerialModule,
}

/// The six fixed handle groups of a result layout, in declaration order.
#[derive(Clone, Copy, Debug, PartialEq, Eq, Structural)]
pub enum Group {
    Inputs,
    Outputs,
    Pwm,
    Channels,
    Timers,
    Serials,
}

/// A configured GPIO handle recorded in the result layout.
#[derive(Clone, Copy, Debug, PartialEq, Eq, Structural)]
pub struct InitializedGpio {
    pub pin: Pin,
    pub port: Port,
    pub mode: PinMode,
}

/// A PWM channel handle recorded in the result layout.
#[derive(Clone, Copy, Debug, PartialEq, Eq, Structural)]
pub struct PwmChannelHandle {
    pub timer: TimerID,
    pub pin: Pin,
    pub port: Port,
}

/// A serial handle recorded in the result layout.
#[derive(Clone, Copy, Debug, PartialEq, Eq, Structural)]
pub struct SerialHandle {
    pub id: SerialID,
}

impl ImportKind {
    /// The module path this import brings into the generated scope.
    pub fn path(&self) -> (r: &'static str)
        ensures
            r@ == spec_import_path(*self),
    {
        match self {
            ImportKind::Prelude => "stm32f1xx_hal::prelude::*",
            ImportKind::GpioModule => "stm32f1xx_hal::gpio::{self, Edge, ExtiPin}",
            ImportKind::TimerModule => "stm32f1xx_hal::timer::{self, Timer}",
            ImportKind::PwmModule => "stm32f1xx_hal::pwm::{self, PwmChannel}",
            ImportKind::PacModule => "stm32f1xx_hal::pac",
            ImportKind::SerialModule => "stm32f1xx_hal::serial::{self, Config}",
        }
    }
}

/// The module path of an import.
pub open spec fn spec_import_path(k: ImportKind) -> Seq<char> {
    match k {
        ImportKind::Prelude => "stm32f1xx_hal::prelude::*"@,
        ImportKind::GpioModule => "stm32f1xx_hal::gpio::{self, Edge, ExtiPin}"@,
        ImportKind::TimerModule => "stm32f1xx_hal::timer::{self, Timer}"@,
        ImportKind::PwmModule => "stm32f1xx_hal::pwm::{self, PwmChannel}"@,
        ImportKind::PacModule => "stm32f1xx_hal::pac"@,
        ImportKind::SerialModule => "stm32f1xx_hal::serial::{self, Config}"@,
    }
}

impl Group {
    /// The name of the static storage declared for this handle group.
    pub fn static_name(&self) -> (r: &'static str)
        ensures
            r@ == spec_group_static_name(*self),
    {
        match self {
            Group::Inputs => "INPUT_PINS",
            Group::Outputs => "OUTPUT_PINS",
            Group::Pwm => "PWM_PINS",
            Group::Channels => "CHANNELS",
            Group::Timers => "TIMERS",
            Group::Serials => "SERIALS",
        }
    }
}

/// The static-storage name of a handle group.
pub open spec fn spec_group_static_name(g: Group) -> Seq<char> {
    match g {
        Group::Inputs => "INPUT_PINS"@,
        Group::Outputs => "OUTPUT_PINS"@,
        Group::Pwm => "PWM_PINS"@,
        Group::Channels => "CHANNELS"@,
        Group::Timers => "TIMERS"@,
        Group::Serials => "SERIALS"@,
    }
}

/// The ordered initialization plan: the declaration/import preamble, then
/// the operation sequence in the exact order the hardware requires.
#[derive(Clone, Debug)]
pub struct InitPlan {
    pub preamble: Vec<Op>,
    pub ops: Vec<Op>,
}

/// The fixed-order description of the handles an executed plan produces,
/// per peripheral class. Callers destructure the eventual aggregate in
/// exactly this order. The channel and timer groups are reserved and stay
/// empty for now.
#[derive(Clone, Debug)]
pub struct ResultLayout {
    pub inputs: Vec<InitializedGpio>,
    pub outputs: Vec<InitializedGpio>,
    pub pwm: Vec<PwmChannelHandle>,
    pub channels: Vec<InitializedGpio>,
    pub timers: Vec<TimerID>,
    pub serials: Vec<SerialHandle>,
}

/// The full type name of a configured GPIO handle, of the shape
/// `stm32f1xx_hal::gpio::gpioa::PA0<stm32f1xx_hal::gpio::Input<stm32f1xx_hal::gpio::PullUp>>`.
pub open spec fn spec_gpio_ty(pin: Pin, port: Port, mode: PinMode) -> Seq<char> {
    "stm32f1xx_hal::gpio::"@ + crate::stm32f1xx::spec_port_lower(port) + "::"@
        + crate::stm32f1xx::spec_gpio_short_type(pin, port) + "<stm32f1xx_hal::gpio::"@
        + crate::stm32f1xx::spec_direction_name(mode) + "<stm32f1xx_hal::gpio::"@
        + crate::stm32f1xx::spec_mode_name(mode) + ">>"@
}

impl InitializedGpio {
    /// The identifier this handle is bound to, such as `pa0`.
    pub fn identifier(&self) -> (r: String)
        requires
            self.pin.0 <= 15,
        ensures
            r@ == crate::stm32f1xx::spec_gpio_ident(self.pin, self.port),
    {
        crate::stm32f1xx::gpio_ident(self.pin, self.port)
    }

    /// The full type name of this handle.
    pub fn ty(&self) -> (r: String)
        requires
            self.pin.0 <= 15,
        ensures
            r@ == spec_gpio_ty(self.pin, self.port, self.mode),
    {
        let short = crate::stm32f1xx::gpio_short_type(self.pin, self.port);
        String::from_str("stm32f1xx_hal::gpio::").concat(self.port.lower()).concat("::").concat(
            short.as_str(),
        ).concat("<stm32f1xx_hal::gpio::").concat(self.mode.direction_name()).concat(
            "<stm32f1xx_hal::gpio::",
        ).concat(self.mode.mode_name()).concat(">>")
    }
}

impl PwmChannelHandle {
    /// The identifier this channel handle is bound to, such as `pa1`.
    pub fn identifier(&self) -> (r: String)
        requires
            self.pin.0 <= 15,
        ensures
            r@ == crate::stm32f1xx::spec_gpio_ident(self.pin, self.port),
    {
        crate::stm32f1xx::gpio_ident(self.pin, self.port)
    }
}

/// The type-shape descriptor of a PWM channel handle.
pub open spec fn spec_pwm_ty(timer: TimerID) -> Seq<char> {
    "stm32f1xx_hal::pwm::PwmChannel<stm32f1xx_hal::pac::"@ + crate::stm32f1xx::spec_timer_pac_name(
        timer,
    ) + ">"@
}

impl PwmChannelHandle {
    /// The type-shape descriptor of this channel handle.
    pub fn ty(&self) -> (r: String)
        ensures
            r@ == spec_pwm_ty(self.timer),
    {
        String::from_str("stm32f1xx_hal::pwm::PwmChannel<stm32f1xx_hal::pac::").concat(
            self.timer.pac_name(),
        ).concat(">")
    }
}

impl SerialHandle {
    /// The identifier this serial handle is bound to, such as `usart1`.
    pub fn identifier(&self) -> (r: String)
        ensures
            r@ == crate::stm32f1xx::spec_serial_name(self.id),
    {
        String::from_str(self.id.name())
    }
}

/// A device-family lowering strategy: the family-specific rules the planner
/// calls to emit concrete operations. The planner itself is entirely
/// strategy-agnostic; adding a device family means implementing this trait
/// without touching the planner.
pub trait Generator {
    /// The declaration/import preamble this family prepends to the plan.
    spec fn spec_imports(&self) -> Seq<Op>;

    /// The unconditional first operations of the plan: acquiring the device
    /// singleton and the flash handle.
    spec fn spec_device_init(&self) -> Seq<Op>;

    /// Acquiring the bus controller.
    spec fn spec_bus(&self) -> Seq<Op>;

    /// Taking the clock-configuration builder.
    spec fn spec_cfgr(&self) -> Seq<Op>;

    /// Applying a system-clock frequency and freezing the clock tree.
    spec fn spec_clock(&self, freq: usize) -> Seq<Op>;

    /// Acquiring the alternate-function controller.
    spec fn spec_afio(&self) -> Seq<Op>;

    /// Splitting one port.
    spec fn spec_port_split(&self, port: Port) -> Seq<Op>;

    /// Configuring one pin into its mode.
    spec fn spec_pin_config(&self, gpio: Gpio) -> Seq<Op>;

    /// Wiring one pin's interrupt: source, edge, enable, in that order.
    spec fn spec_interrupt(&self, gpio: Gpio) -> Seq<Op>;

    /// Wiring one PWM block: its channel pins in order, then the optional
    /// target frequency.
    spec fn spec_pwm(&self, timer: TimerID, pins: Seq<(Pin, Port)>, freq: Option<Hertz>) -> Seq<
        Op,
    >;

    /// Configuring one serial interface.
    spec fn spec_serial(&self, serial: Serial) -> Seq<Op>;

    /// Unmasking the interrupt line of one input pin, where it has one.
    spec fn spec_unmask(&self, gpio: Gpio) -> Seq<Op>;

    /// Unmasking the interrupt line of one serial interface.
    spec fn spec_serial_unmask(&self, serial: Serial) -> Seq<Op>;

    fn generate_imports(&self) -> (r: Vec<Op>)
        ensures
            r@ == self.spec_imports(),
    ;

    fn generate_device_init(&self) -> (r: Vec<Op>)
        ensures
            r@ == self.spec_device_init(),
    ;

    fn generate_bus(&self) -> (r: Vec<Op>)
        ensures
            r@ == self.spec_bus(),
    ;

    fn generate_cfgr(&self) -> (r: Vec<Op>)
        ensures
            r@ == self.spec_cfgr(),
    ;

    fn generate_clock(&self, freq: usize) -> (r: Vec<Op>)
        ensures
            r@ == self.spec_clock(freq),
    ;

    fn generate_afio(&self) -> (r: Vec<Op>)
        ensures
            r@ == self.spec_afio(),
    ;

    fn generate_port_split(&self, port: Port) -> (r: Vec<Op>)
        ensures
            r@ == self.spec_port_split(port),
    ;

    fn generate_pin(&self, gpio: &Gpio) -> (r: Vec<Op>)
        ensures
            r@ == self.spec_pin_config(*gpio),
    ;

    fn generate_interrupt(&self, gpio: &Gpio) -> (r: Vec<Op>)
        ensures
            r@ == self.spec_interrupt(*gpio),
    ;

    fn generate_pwm(&self, pwm: &PWM) -> (r: Vec<Op>)
        ensures
            r@ == self.spec_pwm(pwm.timer.id, pwm.pins@, pwm.frequency),
    ;

    fn generate_serial(&self, serial: &Serial) -> (r: Vec<Op>)
        ensures
            r@ == self.spec_serial(*serial),
    ;

    fn generate_unmask(&self, gpio: &Gpio) -> (r: Vec<Op>)
        ensures
            r@ == self.spec_unmask(*gpio),
    ;

    fn generate_serial_unmask(&self, serial: &Serial) -> (r: Vec<Op>)
        ensures
            r@ == self.spec_serial_unmask(*serial),
    ;
}

/// The lowering strategy of the no-op `Dummy` family used for testing: it
/// contributes no operations at all.
#[derive(Clone, Copy, Debug, PartialEq, Eq, Structural)]
pub struct DummyGenerator;

impl Generator for DummyGenerator {
    open spec fn spec_imports(&self) -> Seq<Op> {
        Seq::empty()
    }

    open spec fn spec_device_init(&self) -> Seq<Op> {
        Seq::empty()
    }

    open spec fn spec_bus(&self) -> Seq<Op> {
        Seq::empty()
    }

    open spec fn spec_cfgr(&self) -> Seq<Op> {
        Seq::empty()
    }

    open spec fn spec_clock(&self, freq: usize) -> Seq<Op> {
        Seq::empty()
    }

    open spec fn spec_afio(&self) -> Seq<Op> {
        Seq::empty()
    }

    open spec fn spec_port_split(&self, port: Port) -> Seq<Op> {
        Seq::empty()
    }

    open spec fn spec_pin_config(&self, gpio: Gpio) -> Seq<Op> {
        Seq::empty()
    }

    open spec fn spec_interrupt(&self, gpio: Gpio) -> Seq<Op> {
        Seq::empty()
    }

    open spec fn spec_pwm(&self, timer: TimerID, pins: Seq<(Pin, Port)>, freq: Option<Hertz>) -> Seq<
        Op,
    > {
        Seq::empty()
    }

    open spec fn spec_serial(&self, serial: Serial) -> Seq<Op> {
        Seq::empty()
    }

    open spec fn spec_unmask(&self, gpio: Gpio) -> Seq<Op> {
        Seq::empty()
    }

    open spec fn spec_serial_unmask(&self, serial: Serial) -> Seq<Op> {
        Seq::empty()
    }

    fn generate_imports(&self) -> (r: Vec<Op>) {
        Vec::new()
    }

    fn generate_device_init(&self) -> (r: Vec<Op>) {
        Vec::new()
    }

    fn generate_bus(&self) -> (r: Vec<Op>) {
        Vec::new()
    }

    fn generate_cfgr(&self) -> (r: Vec<Op>) {
        Vec::new()
    }

    fn generate_clock(&self, freq: usize) -> (r: Vec<Op>) {
        Vec::new()
    }

    fn generate_afio(&self) -> (r: Vec<Op>) {
        Vec::new()
    }

    fn generate_port_split(&self, port: Port) -> (r: Vec<Op>) {
        Vec::new()
    }

    fn generate_pin(&self, gpio: &Gpio) -> (r: Vec<Op>) {
        Vec::new()
    }

    fn generate_interrupt(&self, gpio: &Gpio) -> (r: Vec<Op>) {
        Vec::new()
    }

    fn generate_pwm(&self, pwm: &PWM) -> (r: Vec<Op>) {
        Vec::new()
    }

    fn generate_serial(&self, serial: &Serial) -> (r: Vec<Op>) {
        Vec::new()
    }

    fn generate_unmask(&self, gpio: &Gpio) -> (r: Vec<Op>) {
        Vec::new()
    }

    fn generate_serial_unmask(&self, serial: &Serial) -> (r: Vec<Op>) {
        Vec::new()
    }
}

/// The lowering strategy of the STM32F1 family.
#[derive(Clone, Copy, Debug, PartialEq, Eq, Structural)]
pub struct Stm32f1xxGenerator;

impl Generator for Stm32f1xxGenerator {
    open spec fn spec_imports(&self) -> Seq<Op> {
        seq![
            Op::Import(ImportKind::Prelude),
            Op::Import(ImportKind::GpioModule),
            Op::Import(ImportKind::TimerModule),
            Op::Import(ImportKind::PwmModule),
            Op::Import(ImportKind::PacModule),
            Op::Import(ImportKind::SerialModule),
            Op::DeclareStatics(Group::Inputs),
            Op::DeclareStatics(Group::Outputs),
            Op::DeclareStatics(Group::Pwm),
            Op::DeclareStatics(Group::Channels),
            Op::DeclareStatics(Group::Timers),
            Op::DeclareStatics(Group::Serials),
        ]
    }

    open spec fn spec_device_init(&self) -> Seq<Op> {
        seq![Op::TakePeripherals, Op::ConstrainFlash]
    }

    open spec fn spec_bus(&self) -> Seq<Op> {
        seq![Op::ConstrainRcc]
    }

    open spec fn spec_cfgr(&self) -> Seq<Op> {
        seq![Op::TakeCfgr]
    }

    open spec fn spec_clock(&self, freq: usize) -> Seq<Op> {
        seq![Op::ApplySysClock(freq), Op::FreezeClocks]
    }

    open spec fn spec_afio(&self) -> Seq<Op> {
        seq![Op::ConstrainAfio]
    }

    open spec fn spec_port_split(&self, port: Port) -> Seq<Op> {
        seq![Op::SplitPort(port)]
    }

    open spec fn spec_pin_config(&self, gpio: Gpio) -> Seq<Op> {
        seq![Op::ConfigurePin(gpio.pin, gpio.port, gpio.mode)]
    }

    open spec fn spec_interrupt(&self, gpio: Gpio) -> Seq<Op> {
        seq![
            Op::MakeInterruptSource(gpio.pin, gpio.port),
            Op::TriggerOnEdge(gpio.pin, gpio.port, gpio.interrupt_mode),
            Op::EnableInterrupt(gpio.pin, gpio.port),
        ]
    }

    open spec fn spec_pwm(&self, timer: TimerID, pins: Seq<(Pin, Port)>, freq: Option<Hertz>) -> Seq<
        Op,
    > {
        pins.map_values(|pp: (Pin, Port)| Op::ConfigurePwmChannel(timer, pp.0, pp.1)) + (
        match freq {
            Option::Some(f) => seq![Op::SetPwmFrequency(timer, f.0)],
            Option::None => Seq::empty(),
        })
    }

    open spec fn spec_serial(&self, serial: Serial) -> Seq<Op> {
        seq![Op::ConfigureSerial(serial.id, serial.baud_rate.0)]
    }

    open spec fn spec_unmask(&self, gpio: Gpio) -> Seq<Op> {
        if gpio.interrupt_mode == InterruptMode::Disabled {
            Seq::empty()
        } else {
            seq![Op::UnmaskExti(gpio.pin)]
        }
    }

    open spec fn spec_serial_unmask(&self, serial: Serial) -> Seq<Op> {
        seq![Op::UnmaskSerial(serial.id)]
    }

    fn generate_imports(&self) -> (r: Vec<Op>) {
        let r = vec![
            Op::Import(ImportKind::Prelude),
            Op::Import(ImportKind::GpioModule),
            Op::Import(ImportKind::TimerModule),
            Op::Import(ImportKind::PwmModule),
            Op::Import(ImportKind::PacModule),
            Op::Import(ImportKind::SerialModule),
            Op::DeclareStatics(Group::Inputs),
            Op::DeclareStatics(Group::Outputs),
            Op::DeclareStatics(Group::Pwm),
            Op::DeclareStatics(Group::Channels),
            Op::DeclareStatics(Group::Timers),
            Op::DeclareStatics(Group::Serials),
        ];
        proof {
            assert(r@ =~= self.spec_imports());
        }
        r
    }

    fn generate_device_init(&self) -> (r: Vec<Op>) {
        let r = vec![Op::TakePeripherals, Op::ConstrainFlash];
        proof {
            assert(r@ =~= self.spec_device_init());
        }
        r
    }

    fn generate_bus(&self) -> (r: Vec<Op>) {
        let r = vec![Op::ConstrainRcc];
        proof {
            assert(r@ =~= self.spec_bus());
        }
        r
    }

    fn generate_cfgr(&self) -> (r: Vec<Op>) {
        let r = vec![Op::TakeCfgr];
        proof {
            assert(r@ =~= self.spec_cfgr());
        }
        r
    }

    fn generate_clock(&self, freq: usize) -> (r: Vec<Op>) {
        let r = vec![Op::ApplySysClock(freq), Op::FreezeClocks];
        proof {
            assert(r@ =~= self.spec_clock(freq));
        }
        r
    }

    fn generate_afio(&self) -> (r: Vec<Op>) {
        let r = vec![Op::ConstrainAfio];
        proof {
            assert(r@ =~= self.spec_afio());
        }
        r
    }

    fn generate_port_split(&self, port: Port) -> (r: Vec<Op>) {
        let r = vec![Op::SplitPort(port)];
        proof {
            assert(r@ =~= self.spec_port_split(port));
        }
        r
    }

    fn generate_pin(&self, gpio: &Gpio) -> (r: Vec<Op>) {
        let r = vec![Op::ConfigurePin(gpio.pin, gpio.port, gpio.mode)];
        proof {
            assert(r@ =~= self.spec_pin_config(*gpio));
        }
        r
    }

    fn generate_interrupt(&self, gpio: &Gpio) -> (r: Vec<Op>) {
        let r = vec![
            Op::MakeInterruptSource(gpio.pin, gpio.port),
            Op::TriggerOnEdge(gpio.pin, gpio.port, gpio.interrupt_mode),
            Op::EnableInterrupt(gpio.pin, gpio.port),
        ];
        proof {
            assert(r@ =~= self.spec_interrupt(*gpio));
        }
        r
    }

    fn generate_pwm(&self, pwm: &PWM) -> (r: Vec<Op>) {
        let mut r: Vec<Op> = Vec::new();
        let ghost channel_of = |pp: (Pin, Port)| Op::ConfigurePwmChannel(pwm.timer.id, pp.0, pp.1);
        for j in 0..pwm.pins.len()
            invariant
                r@ == pwm.pins@.take(j as int).map_values(channel_of),
                channel_of == (|pp: (Pin, Port)| Op::ConfigurePwmChannel(pwm.timer.id, pp.0, pp.1)),
        {
            r.push(Op::ConfigurePwmChannel(pwm.timer.id, pwm.pins[j].0, pwm.pins[j].1));
            proof {
                assert(pwm.pins@.take(j + 1).map_values(channel_of) =~= pwm.pins@.take(
                    j as int,
                ).map_values(channel_of).push(channel_of(pwm.pins@[j as int])));
            }
        }
        proof {
            assert(pwm.pins@.take(pwm.pins@.len() as int) =~= pwm.pins@);
        }
        match &pwm.frequency {
            Option::Some(f) => {
                r.push(Op::SetPwmFrequency(pwm.timer.id, f.0));
            },
            Option::None => {},
        }
        proof {
            assert(r@ =~= self.spec_pwm(pwm.timer.id, pwm.pins@, pwm.frequency));
        }
        r
    }

    fn generate_serial(&self, serial: &Serial) -> (r: Vec<Op>) {
        let r = vec![Op::ConfigureSerial(serial.id, serial.baud_rate.0)];
        proof {
            assert(r@ =~= self.spec_serial(*serial));
        }
        r
    }

    fn generate_unmask(&self, gpio: &Gpio) -> (r: Vec<Op>) {
        if gpio.interrupt_mode == InterruptMode::Disabled {
            Vec::new()
        } else {
            let r = vec![Op::UnmaskExti(gpio.pin)];
            proof {
                assert(r@ =~= self.spec_unmask(*gpio));
            }
            r
        }
    }

    fn generate_serial_unmask(&self, serial: &Serial) -> (r: Vec<Op>) {
        let r = vec![Op::UnmaskSerial(serial.id)];
        proof {
            assert(r@ =~= self.spec_serial_unmask(*serial));
        }
        r
    }
}

/// The lowering strategy a configuration selects, as a closed variant over
/// the known families.
#[derive(Clone, Copy, Debug, PartialEq, Eq, Structural)]
pub enum DeviceGenerator {
    Dummy(DummyGenerator),
    Stm32f1xx(Stm32f1xxGenerator),
}

/// The lifecycle of the clock-configuration builder inside one planning
/// pass: never requested, taken out of the bus controller, or frozen into
/// the final clock handle (a one-way step).
#[derive(Clone, Copy, Debug, PartialEq, Eq, Structural)]
pub enum ClockState {
    Unrequested,
    Materialized,
    Frozen,
}

/// Which ports have already been split in this planning pass.
#[derive(Clone, Copy, Debug, PartialEq, Eq, Structural)]
pub struct PortFlags {
    pub a: bool,
    pub b: bool,
    pub c: bool,
    pub d: bool,
    pub e: bool,
}

/// Whether a port's flag is set.
pub open spec fn spec_port_flag(f: PortFlags, p: Port) -> bool {
    match p {
        Port::A => f.a,
        Port::B => f.b,
        Port::C => f.c,
        Port::D => f.d,
        Port::E => f.e,
    }
}

/// The flags with one port's flag set.
pub open spec fn spec_set_port_flag(f: PortFlags, p: Port) -> PortFlags {
    match p {
        Port::A => PortFlags { a: true, ..f },
        Port::B => PortFlags { b: true, ..f },
        Port::C => PortFlags { c: true, ..f },
        Port::D => PortFlags { d: true, ..f },
        Port::E => PortFlags { e: true, ..f },
    }
}

/// One planning pass under construction: the operations emitted so far and
/// the state of every shared, at-most-once hardware resource. Each accessor
/// is memoized: the first caller that needs a resource triggers emission of
/// its operations, every later caller finds it already materialized.
pub struct DeviceInit<G: Generator> {
    pub generator: G,
    pub ops: Vec<Op>,
    pub rcc: bool,
    pub cfgr: ClockState,
    pub afio: bool,
    pub splits: PortFlags,
}

impl<G: Generator> DeviceInit<G> {
    /// Starts a planning pass: the device singleton and the flash handle
    /// are acquired unconditionally, before anything else.
    pub fn new(generator: G) -> (r: DeviceInit<G>)
        ensures
            r.generator == generator,
            r.ops@ == generator.spec_device_init(),
            !r.rcc,
            r.cfgr == ClockState::Unrequested,
            !r.afio,
            r.splits == (PortFlags { a: false, b: false, c: false, d: false, e: false }),
    {
        let ops = generator.generate_device_init();
        DeviceInit {
            generator,
            ops,
            rcc: false,
            cfgr: ClockState::Unrequested,
            afio: false,
            splits: PortFlags { a: false, b: false, c: false, d: false, e: false },
        }
    }

    /// Acquires the bus controller, once: the first call emits its
    /// operations, every later call finds it materialized.
    pub fn rcc(&mut self)
        ensures
            final(self).ops@ == old(self).ops@ + (if old(self).rcc {
                Seq::<Op>::empty()
            } else {
                old(self).generator.spec_bus()
            }),
            final(self).rcc,
            final(self).generator == old(self).generator,
            final(self).cfgr == old(self).cfgr,
            final(self).afio == old(self).afio,
            final(self).splits == old(self).splits,
    {
        if !self.rcc {
            let mut v = self.generator.generate_bus();
            self.ops.append(&mut v);
            self.rcc = true;
        } else {
            proof {
                assert(self.ops@ =~= self.ops@ + Seq::<Op>::empty());
            }
        }
    }

    /// Takes the clock-configuration builder, once. Taking it again after
    /// the freeze is a fatal state error: the freeze is one-way.
    pub fn cfgr(&mut self) -> (r: Result<(), Error>)
        ensures
            old(self).cfgr == ClockState::Frozen ==> r == Err::<(), Error>(
                Error::ReacquireAfterFreeze,
            ) && *final(self) == *old(self),
            old(self).cfgr != ClockState::Frozen ==> r == Ok::<(), Error>(()) && {
                &&& final(self).ops@ == old(self).ops@ + (if old(self).cfgr
                    == ClockState::Materialized {
                    Seq::<Op>::empty()
                } else {
                    (if old(self).rcc {
                        Seq::<Op>::empty()
                    } else {
                        old(self).generator.spec_bus()
                    }) + old(self).generator.spec_cfgr()
                })
                &&& final(self).cfgr == ClockState::Materialized
                &&& final(self).rcc == (old(self).rcc || old(self).cfgr
                    == ClockState::Unrequested)
                &&& final(self).generator == old(self).generator
                &&& final(self).afio == old(self).afio
                &&& final(self).splits == old(self).splits
            },
    {
        match self.cfgr {
            ClockState::Frozen => Err(Error::ReacquireAfterFreeze),
            ClockState::Materialized => {
                proof {
                    assert(self.ops@ =~= self.ops@ + Seq::<Op>::empty());
                }
                Ok(())
            },
            ClockState::Unrequested => {
                self.rcc();
                let mut v = self.generator.generate_cfgr();
                self.ops.append(&mut v);
                self.cfgr = ClockState::Materialized;
                proof {
                    assert(self.ops@ =~= old(self).ops@ + ((if old(self).rcc {
                        Seq::<Op>::empty()
                    } else {
                        old(self).generator.spec_bus()
                    }) + old(self).generator.spec_cfgr()));
                }
                Ok(())
            },
        }
    }

    /// Applies the target system-clock frequency and freezes the clock
    /// tree, once: a later call finds the frozen clocks already recorded.
    pub fn clocks(&mut self, freq: usize)
        ensures
            final(self).ops@ == old(self).ops@ + (if old(self).cfgr == ClockState::Frozen {
                Seq::<Op>::empty()
            } else {
                (if old(self).cfgr == ClockState::Unrequested {
                    (if old(self).rcc {
                        Seq::<Op>::empty()
                    } else {
                        old(self).generator.spec_bus()
                    }) + old(self).generator.spec_cfgr()
                } else {
                    Seq::<Op>::empty()
                }) + old(self).generator.spec_clock(freq)
            }),
            final(self).cfgr == ClockState::Frozen,
            final(self).rcc == (old(self).rcc || old(self).cfgr == ClockState::Unrequested),
            final(self).generator == old(self).generator,
            final(self).afio == old(self).afio,
            final(self).splits == old(self).splits,
    {
        match self.cfgr {
            ClockState::Frozen => {
                proof {
                    assert(self.ops@ =~= self.ops@ + Seq::<Op>::empty());
                }
            },
            _ => {
                let ghost mid: Seq<Op> = if old(self).cfgr == ClockState::Unrequested {
                    (if old(self).rcc {
                        Seq::<Op>::empty()
                    } else {
                        old(self).generator.spec_bus()
                    }) + old(self).generator.spec_cfgr()
                } else {
                    Seq::<Op>::empty()
                };
                match self.cfgr() {
                    Ok(()) => {},
                    Err(_) => {
                        proof {
                            assert(false);
                        }
                    },
                }
                let mut v = self.generator.generate_clock(freq);
                self.ops.append(&mut v);
                self.cfgr = ClockState::Frozen;
                proof {
                    assert(self.ops@ =~= old(self).ops@ + (mid + old(self).generator.spec_clock(
                        freq,
                    )));
                }
            },
        }
    }

    /// Acquires the alternate-function controller, once.
    pub fn afio(&mut self)
        ensures
            final(self).ops@ == old(self).ops@ + (if old(self).afio {
                Seq::<Op>::empty()
            } else {
                (if old(self).rcc {
                    Seq::<Op>::empty()
                } else {
                    old(self).generator.spec_bus()
                }) + old(self).generator.spec_afio()
            }),
            final(self).afio,
            final(self).rcc == (old(self).rcc || !old(self).afio),
            final(self).generator == old(self).generator,
            final(self).cfgr == old(self).cfgr,
            final(self).splits == old(self).splits,
    {
        if !self.afio {
            self.rcc();
            let mut v = self.generator.generate_afio();
            self.ops.append(&mut v);
            self.afio = true;
            proof {
                assert(self.ops@ =~= old(self).ops@ + ((if old(self).rcc {
                    Seq::<Op>::empty()
                } else {
                    old(self).generator.spec_bus()
                }) + old(self).generator.spec_afio()));
            }
        } else {
            proof {
                assert(self.ops@ =~= self.ops@ + Seq::<Op>::empty());
            }
        }
    }

    /// Splits one port, once: a port already split is not split again.
    pub fn split_port(&mut self, port: Port)
        ensures
            final(self).ops@ == old(self).ops@ + (if spec_port_flag(old(self).splits, port) {
                Seq::<Op>::empty()
            } else {
                (if old(self).rcc {
                    Seq::<Op>::empty()
                } else {
                    old(self).generator.spec_bus()
                }) + old(self).generator.spec_port_split(port)
            }),
            final(self).splits == spec_set_port_flag(old(self).splits, port),
            final(self).rcc == (old(self).rcc || !spec_port_flag(old(self).splits, port)),
            final(self).generator == old(self).generator,
            final(self).cfgr == old(self).cfgr,
            final(self).afio == old(self).afio,
    {
        let already = match port {
            Port::A => self.splits.a,
            Port::B => self.splits.b,
            Port::C => self.splits.c,
            Port::D => self.splits.d,
            Port::E => self.splits.e,
        };
        if !already {
            self.rcc();
            let mut v = self.generator.generate_port_split(port);
            self.ops.append(&mut v);
            proof {
                assert(self.ops@ =~= old(self).ops@ + ((if old(self).rcc {
                    Seq::<Op>::empty()
                } else {
                    old(self).generator.spec_bus()
                }) + old(self).generator.spec_port_split(port)));
            }
        } else {
            proof {
                assert(self.ops@ =~= self.ops@ + Seq::<Op>::empty());
            }
        }
        match port {
            Port::A => {
                self.splits.a = true;
            },
            Port::B => {
                self.splits.b = true;
            },
            Port::C => {
                self.splits.c = true;
            },
            Port::D => {
                self.splits.d = true;
            },
            Port::E => {
                self.splits.e = true;
            },
        }
    }
}

/// Whether any pin of the list asks for interrupt wiring.
pub open spec fn spec_any_irq(s: Seq<Gpio>) -> bool {
    exists|i: int|
        0 <= i < s.len() && (#[trigger] s[i]).interrupt_mode != InterruptMode::Disabled
}

proof fn lemma_any_irq_push(s: Seq<Gpio>, x: Gpio)
    ensures
        spec_any_irq(s.push(x)) == (spec_any_irq(s) || x.interrupt_mode
            != InterruptMode::Disabled),
{
    if spec_any_irq(s) {
        let i = choose|i: int|
            0 <= i < s.len() && (#[trigger] s[i]).interrupt_mode != InterruptMode::Disabled;
        assert(s.push(x)[i] == s[i]);
    }
    if x.interrupt_mode != InterruptMode::Disabled {
        assert(s.push(x)[s.len() as int] == x);
    }
    if spec_any_irq(s.push(x)) {
        let i = choose|i: int|
            0 <= i < s.push(x).len() && (#[trigger] s.push(x)[i]).interrupt_mode
                != InterruptMode::Disabled;
        if i < s.len() {
            assert(s[i] == s.push(x)[i]);
        }
    }
}

pub proof fn lemma_any_irq_first(s: Seq<Gpio>)
    requires
        s.len() > 0,
    ensures
        spec_any_irq(s) == (s[0].interrupt_mode != InterruptMode::Disabled || spec_any_irq(
            s.skip(1),
        )),
{
    if spec_any_irq(s) {
        let i = choose|i: int|
            0 <= i < s.len() && (#[trigger] s[i]).interrupt_mode != InterruptMode::Disabled;
        if i > 0 {
            assert(s.skip(1)[i - 1] == s[i]);
        }
    }
    if spec_any_irq(s.skip(1)) {
        let i = choose|i: int|
            0 <= i < s.skip(1).len() && (#[trigger] s.skip(1)[i]).interrupt_mode
                != InterruptMode::Disabled;
        assert(s[i + 1] == s.skip(1)[i]);
    }
}

/// The operations one input pin contributes: its configuration, then, when
/// it asks for interrupt wiring, the alternate-function controller (if not
/// yet acquired) and the wiring operations.
pub open spec fn spec_input_step_ops<G: Generator>(g: G, x: Gpio, afio: bool) -> Seq<Op> {
    g.spec_pin_config(x) + (if x.interrupt_mode == InterruptMode::Disabled {
        Seq::<Op>::empty()
    } else {
        (if afio {
            Seq::<Op>::empty()
        } else {
            g.spec_afio()
        }) + g.spec_interrupt(x)
    })
}

/// The operations of the whole input phase, threading the memoized
/// alternate-function-controller state through the pins in list order.
pub open spec fn spec_inputs_ops<G: Generator>(g: G, s: Seq<Gpio>, afio: bool) -> Seq<Op>
    decreases s.len(),
{
    if s.len() == 0 {
        Seq::empty()
    } else {
        spec_input_step_ops(g, s[0], afio) + spec_inputs_ops(
            g,
            s.skip(1),
            afio || s[0].interrupt_mode != InterruptMode::Disabled,
        )
    }
}

proof fn lemma_inputs_ops_push<G: Generator>(g: G, s: Seq<Gpio>, x: Gpio, afio: bool)
    ensures
        spec_inputs_ops(g, s.push(x), afio) == spec_inputs_ops(g, s, afio) + spec_input_step_ops(
            g,
            x,
            afio || spec_any_irq(s),
        ),
    decreases s.len(),
{
    reveal_with_fuel(spec_inputs_ops, 3);
    if s.len() == 0 {
        assert(s.push(x)[0] == x);
        assert(s.push(x).skip(1) =~= Seq::<Gpio>::empty());
        assert(!spec_any_irq(s));
        assert(spec_inputs_ops(g, s.push(x), afio) =~= spec_inputs_ops(g, s, afio)
            + spec_input_step_ops(g, x, afio || spec_any_irq(s)));
    } else {
        let a1 = afio || s[0].interrupt_mode != InterruptMode::Disabled;
        lemma_inputs_ops_push(g, s.skip(1), x, a1);
        lemma_any_irq_first(s);
        assert(s.push(x)[0] == s[0]);
        assert(s.push(x).skip(1) =~= s.skip(1).push(x));
        assert((a1 || spec_any_irq(s.skip(1))) == (afio || spec_any_irq(s)));
        assert(spec_inputs_ops(g, s.push(x), afio) =~= spec_inputs_ops(g, s, afio)
            + spec_input_step_ops(g, x, afio || spec_any_irq(s)));
    }
}

/// The handles the input or output phase records, in list order.
pub open spec fn spec_gpio_handles(s: Seq<Gpio>) -> Seq<InitializedGpio> {
    s.map_values(|x: Gpio| InitializedGpio { pin: x.pin, port: x.port, mode: x.mode })
}

/// The operations of the output phase: one configuration per pin, in list
/// order.
pub open spec fn spec_outputs_ops<G: Generator>(g: G, s: Seq<Gpio>) -> Seq<Op> {
    s.flat_map(|x: Gpio| g.spec_pin_config(x))
}

/// The operations of the PWM phase, block by block.
pub open spec fn spec_pwms_ops<G: Generator>(g: G, s: Seq<PWM>) -> Seq<Op> {
    s.flat_map(|p: PWM| g.spec_pwm(p.timer.id, p.pins@, p.frequency))
}

/// The channel handles the PWM phase records: per block, its pins in order.
pub open spec fn spec_pwm_handles(s: Seq<PWM>) -> Seq<PwmChannelHandle> {
    s.flat_map(
        |p: PWM|
            p.pins@.map_values(
                |pp: (Pin, Port)| PwmChannelHandle { timer: p.timer.id, pin: pp.0, port: pp.1 },
            ),
    )
}

/// The operations of the serial phase, block by block.
pub open spec fn spec_serials_ops<G: Generator>(g: G, s: Seq<Serial>) -> Seq<Op> {
    s.flat_map(|x: Serial| g.spec_serial(x))
}

/// The handles the serial phase records: one per block, keyed by identity.
pub open spec fn spec_serial_handles(s: Seq<Serial>) -> Seq<SerialHandle> {
    s.map_values(|x: Serial| SerialHandle { id: x.id })
}

/// Whether some pin of the list lies on the given port.
pub open spec fn spec_port_used(pins: Seq<(Pin, Port)>, p: Port) -> bool {
    exists|i: int| 0 <= i < pins.len() && (#[trigger] pins[i]).1 == p
}

/// The operations splitting one port contributes: nothing when the port is
/// unused; else the bus controller first, if it is not yet acquired.
pub open spec fn spec_split_step<G: Generator>(g: G, used: bool, rcc: bool, p: Port) -> Seq<Op> {
    if used {
        (if rcc {
            Seq::<Op>::empty()
        } else {
            g.spec_bus()
        }) + g.spec_port_split(p)
    } else {
        Seq::empty()
    }
}

/// The operations of the port-split phase: the distinct ports actually
/// used, in the fixed stable order A, B, C, D, E.
pub open spec fn spec_splits_ops<G: Generator>(g: G, pins: Seq<(Pin, Port)>, rcc0: bool) -> Seq<
    Op,
> {
    let ua = spec_port_used(pins, Port::A);
    let ub = spec_port_used(pins, Port::B);
    let uc = spec_port_used(pins, Port::C);
    let ud = spec_port_used(pins, Port::D);
    let ue = spec_port_used(pins, Port::E);
    let r1 = rcc0 || ua;
    let r2 = r1 || ub;
    let r3 = r2 || uc;
    let r4 = r3 || ud;
    spec_split_step(g, ua, rcc0, Port::A) + spec_split_step(g, ub, r1, Port::B) + spec_split_step(
        g,
        uc,
        r2,
        Port::C,
    ) + spec_split_step(g, ud, r3, Port::D) + spec_split_step(g, ue, r4, Port::E)
}

/// Whether the bus controller is acquired once the port-split phase ran.
pub open spec fn spec_splits_rcc(pins: Seq<(Pin, Port)>, rcc0: bool) -> bool {
    rcc0 || spec_port_used(pins, Port::A) || spec_port_used(pins, Port::B) || spec_port_used(
        pins,
        Port::C,
    ) || spec_port_used(pins, Port::D) || spec_port_used(pins, Port::E)
}

/// Every pin the peripheral lists reference, in claim order: plain inputs,
/// plain outputs, PWM channel pins, then serial pins.
pub open spec fn spec_all_pins(
    inputs: Seq<Gpio>,
    outputs: Seq<Gpio>,
    pwms: Seq<PWM>,
    serials: Seq<Serial>,
) -> Seq<(Pin, Port)> {
    spec_gpio_pins(inputs) + spec_gpio_pins(outputs) + spec_pwm_pins(pwms) + spec_serial_pins(
        serials,
    )
}

impl<G: Generator> DeviceInit<G> {
    /// Splits one port when it is used; a port not yet split may be split
    /// at most once within a pass.
    fn maybe_split(&mut self, used: bool, port: Port)
        requires
            !spec_port_flag(old(self).splits, port),
        ensures
            final(self).ops@ == old(self).ops@ + spec_split_step(
                old(self).generator,
                used,
                old(self).rcc,
                port,
            ),
            final(self).rcc == (old(self).rcc || used),
            final(self).splits == (if used {
                spec_set_port_flag(old(self).splits, port)
            } else {
                old(self).splits
            }),
            final(self).generator == old(self).generator,
            final(self).cfgr == old(self).cfgr,
            final(self).afio == old(self).afio,
    {
        if used {
            self.split_port(port);
        } else {
            proof {
                assert(self.ops@ =~= self.ops@ + Seq::<Op>::empty());
            }
        }
    }

    /// Range-checks and claims every referenced pin, then splits the ports
    /// actually used, each exactly once, in the fixed stable order A to E.
    /// The first out-of-range or doubly-claimed pin aborts the pass.
    #[verifier::rlimit(60)]
    pub fn gpios(&mut self, pins: &Vec<(Pin, Port)>) -> (r: Result<(), Error>)
        requires
            old(self).splits == (PortFlags { a: false, b: false, c: false, d: false, e: false }),
        ensures
            match spec_check_pins(pins@) {
                Ok(u) => r == Ok::<(), Error>(()) && {
                    &&& final(self).ops@ == old(self).ops@ + spec_splits_ops(
                        old(self).generator,
                        pins@,
                        old(self).rcc,
                    )
                    &&& final(self).rcc == spec_splits_rcc(pins@, old(self).rcc)
                    &&& final(self).splits == (PortFlags {
                        a: spec_port_used(pins@, Port::A),
                        b: spec_port_used(pins@, Port::B),
                        c: spec_port_used(pins@, Port::C),
                        d: spec_port_used(pins@, Port::D),
                        e: spec_port_used(pins@, Port::E),
                    })
                    &&& final(self).generator == old(self).generator
                    &&& final(self).cfgr == old(self).cfgr
                    &&& final(self).afio == old(self).afio
                },
                Err(e) => r == Err::<(), Error>(e) && *final(self) == *old(self),
            },
    {
        match check_pins(pins) {
            Err(e) => {
                return Err(e);
            },
            Ok(()) => {},
        }
        let ghost g0 = self.generator;
        let ghost ops0 = self.ops@;
        let ghost rcc0 = self.rcc;
        let ua = port_used(pins, Port::A);
        let ub = port_used(pins, Port::B);
        let uc = port_used(pins, Port::C);
        let ud = port_used(pins, Port::D);
        let ue = port_used(pins, Port::E);
        let ghost r1 = rcc0 || ua;
        let ghost r2 = r1 || ub;
        let ghost r3 = r2 || uc;
        let ghost r4 = r3 || ud;
        let ghost s1 = spec_split_step(g0, ua, rcc0, Port::A);
        let ghost s2 = spec_split_step(g0, ub, r1, Port::B);
        let ghost s3 = spec_split_step(g0, uc, r2, Port::C);
        let ghost s4 = spec_split_step(g0, ud, r3, Port::D);
        let ghost s5 = spec_split_step(g0, ue, r4, Port::E);
        self.maybe_split(ua, Port::A);
        proof {
            assert(self.ops@ == ops0 + s1);
        }
        self.maybe_split(ub, Port::B);
        proof {
            assert(self.ops@ == ops0 + s1 + s2);
        }
        self.maybe_split(uc, Port::C);
        proof {
            assert(self.ops@ == ops0 + s1 + s2 + s3);
        }
        self.maybe_split(ud, Port::D);
        proof {
            assert(self.ops@ == ops0 + s1 + s2 + s3 + s4);
        }
        self.maybe_split(ue, Port::E);
        proof {
            assert(self.ops@ == ops0 + s1 + s2 + s3 + s4 + s5);
            vstd::seq_lib::lemma_concat_associative(ops0, s1, s2);
            vstd::seq_lib::lemma_concat_associative(ops0, s1 + s2, s3);
            vstd::seq_lib::lemma_concat_associative(ops0, s1 + s2 + s3, s4);
            vstd::seq_lib::lemma_concat_associative(ops0, s1 + s2 + s3 + s4, s5);
            assert(spec_splits_ops(g0, pins@, rcc0) == s1 + s2 + s3 + s4 + s5);
            assert(self.ops@ == ops0 + (s1 + s2 + s3 + s4 + s5));
        }
        Ok(())
    }

    /// Configures every input pin, in list order, wiring its interrupt
    /// right after it where one is asked for; the alternate-function
    /// controller is acquired once, before the first wiring. Returns the
    /// input handles in the same order.
    pub fn inputs(&mut self, gpios: &Vec<Gpio>) -> (r: Vec<InitializedGpio>)
        requires
            gpios@.len() > 0 ==> old(self).rcc,
        ensures
            final(self).ops@ == old(self).ops@ + spec_inputs_ops(
                old(self).generator,
                gpios@,
                old(self).afio,
            ),
            final(self).afio == (old(self).afio || spec_any_irq(gpios@)),
            final(self).rcc == old(self).rcc,
            final(self).generator == old(self).generator,
            final(self).cfgr == old(self).cfgr,
            final(self).splits == old(self).splits,
            r@ == spec_gpio_handles(gpios@),
    {
        let ghost g0 = self.generator;
        let ghost ops0 = self.ops@;
        let ghost a0 = self.afio;
        let mut handles: Vec<InitializedGpio> = Vec::new();
        for i in 0..gpios.len()
            invariant
                gpios@.len() > 0 ==> self.rcc,
                self.generator == g0,
                self.ops@ == ops0 + spec_inputs_ops(g0, gpios@.take(i as int), a0),
                self.afio == (a0 || spec_any_irq(gpios@.take(i as int))),
                self.rcc == old(self).rcc,
                self.cfgr == old(self).cfgr,
                self.splits == old(self).splits,
                handles@ == spec_gpio_handles(gpios@.take(i as int)),
        {
            let ghost afio_i = self.afio;
            let ghost ops_i = self.ops@;
            let gp = gpios[i];
            let mut v = self.generator.generate_pin(&gp);
            self.ops.append(&mut v);
            if gp.interrupt_mode != InterruptMode::Disabled {
                self.afio();
                let mut w = self.generator.generate_interrupt(&gp);
                self.ops.append(&mut w);
            }
            handles.push(InitializedGpio { pin: gp.pin, port: gp.port, mode: gp.mode });
            proof {
                assert(self.ops@ =~= ops_i + spec_input_step_ops(g0, gp, afio_i));
                assert(gpios@.take(i + 1) =~= gpios@.take(i as int).push(gpios@[i as int]));
                lemma_any_irq_push(gpios@.take(i as int), gpios@[i as int]);
                lemma_inputs_ops_push(g0, gpios@.take(i as int), gpios@[i as int], a0);
                assert(self.ops@ =~= ops0 + spec_inputs_ops(g0, gpios@.take(i + 1), a0));
                assert(handles@ =~= spec_gpio_handles(gpios@.take(i + 1)));
            }
        }
        proof {
            assert(gpios@.take(gpios@.len() as int) =~= gpios@);
        }
        handles
    }

    /// Configures every output pin, in list order, and returns the output
    /// handles in the same order.
    pub fn outputs(&mut self, gpios: &Vec<Gpio>) -> (r: Vec<InitializedGpio>)
        ensures
            final(self).ops@ == old(self).ops@ + spec_outputs_ops(old(self).generator, gpios@),
            final(self).afio == old(self).afio,
            final(self).rcc == old(self).rcc,
            final(self).generator == old(self).generator,
            final(self).cfgr == old(self).cfgr,
            final(self).splits == old(self).splits,
            r@ == spec_gpio_handles(gpios@),
    {
        let ghost g0 = self.generator;
        let ghost ops0 = self.ops@;
        let ghost f = |x: Gpio| g0.spec_pin_config(x);
        let mut handles: Vec<InitializedGpio> = Vec::new();
        for i in 0..gpios.len()
            invariant
                self.generator == g0,
                f == (|x: Gpio| g0.spec_pin_config(x)),
                self.ops@ == ops0 + gpios@.take(i as int).flat_map(f),
                self.afio == old(self).afio,
                self.rcc == old(self).rcc,
                self.cfgr == old(self).cfgr,
                self.splits == old(self).splits,
                handles@ == spec_gpio_handles(gpios@.take(i as int)),
        {
            let gp = gpios[i];
            let mut v = self.generator.generate_pin(&gp);
            self.ops.append(&mut v);
            handles.push(InitializedGpio { pin: gp.pin, port: gp.port, mode: gp.mode });
            proof {
                gpios@.lemma_flat_map_take_append(f, i as int);
                assert(self.ops@ =~= ops0 + gpios@.take(i + 1).flat_map(f));
                assert(gpios@.take(i + 1) =~= gpios@.take(i as int).push(gpios@[i as int]));
                assert(handles@ =~= spec_gpio_handles(gpios@.take(i + 1)));
            }
        }
        proof {
            assert(gpios@.take(gpios@.len() as int) =~= gpios@);
        }
        handles
    }

    /// Wires every PWM block, in list order, and returns the channel-pin
    /// handles, per block in pin order.
    pub fn pwm_blocks(&mut self, pwms: &Vec<PWM>) -> (r: Vec<PwmChannelHandle>)
        ensures
            final(self).ops@ == old(self).ops@ + spec_pwms_ops(old(self).generator, pwms@),
            final(self).afio == old(self).afio,
            final(self).rcc == old(self).rcc,
            final(self).generator == old(self).generator,
            final(self).cfgr == old(self).cfgr,
            final(self).splits == old(self).splits,
            r@ == spec_pwm_handles(pwms@),
    {
        let ghost g0 = self.generator;
        let ghost ops0 = self.ops@;
        let ghost f = |p: PWM| g0.spec_pwm(p.timer.id, p.pins@, p.frequency);
        let ghost h = |p: PWM|
            p.pins@.map_values(
                |pp: (Pin, Port)| PwmChannelHandle { timer: p.timer.id, pin: pp.0, port: pp.1 },
            );
        let mut handles: Vec<PwmChannelHandle> = Vec::new();
        for i in 0..pwms.len()
            invariant
                self.generator == g0,
                f == (|p: PWM| g0.spec_pwm(p.timer.id, p.pins@, p.frequency)),
                h == (|p: PWM|
                    p.pins@.map_values(
                        |pp: (Pin, Port)| PwmChannelHandle {
                            timer: p.timer.id,
                            pin: pp.0,
                            port: pp.1,
                        },
                    )),
                self.ops@ == ops0 + pwms@.take(i as int).flat_map(f),
                self.afio == old(self).afio,
                self.rcc == old(self).rcc,
                self.cfgr == old(self).cfgr,
                self.splits == old(self).splits,
                handles@ == pwms@.take(i as int).flat_map(h),
        {
            let block = &pwms[i];
            let mut v = self.generator.generate_pwm(block);
            self.ops.append(&mut v);
            let ghost before = handles@;
            for j in 0..block.pins.len()
                invariant
                    0 <= i < pwms@.len(),
                    block == &pwms@[i as int],
                    handles@ == before + block.pins@.take(j as int).map_values(
                        |pp: (Pin, Port)| PwmChannelHandle {
                            timer: block.timer.id,
                            pin: pp.0,
                            port: pp.1,
                        },
                    ),
            {
                handles.push(
                    PwmChannelHandle {
                        timer: block.timer.id,
                        pin: block.pins[j].0,
                        port: block.pins[j].1,
                    },
                );
                proof {
                    let m = |pp: (Pin, Port)| PwmChannelHandle {
                        timer: block.timer.id,
                        pin: pp.0,
                        port: pp.1,
                    };
                    assert(block.pins@.take(j + 1).map_values(m) =~= block.pins@.take(
                        j as int,
                    ).map_values(m).push(m(block.pins@[j as int])));
                    assert(handles@ =~= before + block.pins@.take(j + 1).map_values(m));
                }
            }
            proof {
                assert(block.pins@.take(block.pins@.len() as int) =~= block.pins@);
                pwms@.lemma_flat_map_take_append(f, i as int);
                pwms@.lemma_flat_map_take_append(h, i as int);
                assert(self.ops@ =~= ops0 + pwms@.take(i + 1).flat_map(f));
                assert(handles@ =~= pwms@.take(i + 1).flat_map(h));
            }
        }
        proof {
            assert(pwms@.take(pwms@.len() as int) =~= pwms@);
        }
        handles
    }

    /// Configures every serial interface, in list order, and returns one
    /// handle per block, keyed by identity.
    pub fn serials(&mut self, serials: &Vec<Serial>) -> (r: Vec<SerialHandle>)
        ensures
            final(self).ops@ == old(self).ops@ + spec_serials_ops(old(self).generator, serials@),
            final(self).afio == old(self).afio,
            final(self).rcc == old(self).rcc,
            final(self).generator == old(self).generator,
            final(self).cfgr == old(self).cfgr,
            final(self).splits == old(self).splits,
            r@ == spec_serial_handles(serials@),
    {
        let ghost g0 = self.generator;
        let ghost ops0 = self.ops@;
        let ghost f = |x: Serial| g0.spec_serial(x);
        let mut handles: Vec<SerialHandle> = Vec::new();
        for i in 0..serials.len()
            invariant
                self.generator == g0,
                f == (|x: Serial| g0.spec_serial(x)),
                self.ops@ == ops0 + serials@.take(i as int).flat_map(f),
                self.afio == old(self).afio,
                self.rcc == old(self).rcc,
                self.cfgr == old(self).cfgr,
                self.splits == old(self).splits,
                handles@ == spec_serial_handles(serials@.take(i as int)),
        {
            let s = &serials[i];
            let mut v = self.generator.generate_serial(s);
            self.ops.append(&mut v);
            handles.push(SerialHandle { id: s.id });
            proof {
                serials@.lemma_flat_map_take_append(f, i as int);
                assert(self.ops@ =~= ops0 + serials@.take(i + 1).flat_map(f));
                assert(serials@.take(i + 1) =~= serials@.take(i as int).push(
                    serials@[i as int],
                ));
                assert(handles@ =~= spec_serial_handles(serials@.take(i + 1)));
            }
        }
        proof {
            assert(serials@.take(serials@.len() as int) =~= serials@);
        }
        handles
    }

    /// Closes the pass: prepends the family's declaration/import preamble
    /// and records the handle groups in the fixed order — inputs, outputs,
    /// pwm, channels, timers, serials. The channel and timer groups are
    /// reserved and stay empty.
    pub fn static_init_and_return(
        self,
        inputs: Vec<InitializedGpio>,
        outputs: Vec<InitializedGpio>,
        pwm: Vec<PwmChannelHandle>,
        serials: Vec<SerialHandle>,
    ) -> (r: (InitPlan, ResultLayout))
        ensures
            r.0.preamble@ == self.generator.spec_imports(),
            r.0.ops@ == self.ops@,
            r.1.inputs@ == inputs@,
            r.1.outputs@ == outputs@,
            r.1.pwm@ == pwm@,
            r.1.channels@ == Seq::<InitializedGpio>::empty(),
            r.1.timers@ == Seq::<TimerID>::empty(),
            r.1.serials@ == serials@,
    {
        let preamble = self.generator.generate_imports();
        (
            InitPlan { preamble, ops: self.ops },
            ResultLayout {
                inputs,
                outputs,
                pwm,
                channels: Vec::new(),
                timers: Vec::new(),
                serials,
            },
        )
    }
}

/// Whether some pin of the list lies on the given port.
fn port_used(pins: &Vec<(Pin, Port)>, p: Port) -> (r: bool)
    ensures
        r == spec_port_used(pins@, p),
{
    for i in 0..pins.len()
        invariant
            forall|k: int| 0 <= k < i ==> (#[trigger] pins@[k]).1 != p,
    {
        if pins[i].1 == p {
            return true;
        }
    }
    false
}

/// Collects every pin the peripheral lists reference, in claim order.
pub fn collect_pins(
    inputs: &Vec<Gpio>,
    outputs: &Vec<Gpio>,
    pwms: &Vec<PWM>,
    serials: &Vec<Serial>,
) -> (r: Vec<(Pin, Port)>)
    ensures
        r@ == spec_all_pins(inputs@, outputs@, pwms@, serials@),
{
    let mut out: Vec<(Pin, Port)> = Vec::new();
    for i in 0..inputs.len()
        invariant
            out@ == spec_gpio_pins(inputs@.take(i as int)),
    {
        out.push((inputs[i].pin, inputs[i].port));
        proof {
            assert(spec_gpio_pins(inputs@.take(i + 1)) =~= spec_gpio_pins(
                inputs@.take(i as int),
            ).push((inputs@[i as int].pin, inputs@[i as int].port)));
        }
    }
    proof {
        assert(inputs@.take(inputs@.len() as int) =~= inputs@);
    }
    for i in 0..outputs.len()
        invariant
            out@ == spec_gpio_pins(inputs@) + spec_gpio_pins(outputs@.take(i as int)),
    {
        out.push((outputs[i].pin, outputs[i].port));
        proof {
            assert(spec_gpio_pins(outputs@.take(i + 1)) =~= spec_gpio_pins(
                outputs@.take(i as int),
            ).push((outputs@[i as int].pin, outputs@[i as int].port)));
            assert(out@ =~= spec_gpio_pins(inputs@) + spec_gpio_pins(outputs@.take(i + 1)));
        }
    }
    proof {
        assert(outputs@.take(outputs@.len() as int) =~= outputs@);
    }
    let ghost base2 = spec_gpio_pins(inputs@) + spec_gpio_pins(outputs@);
    for i in 0..pwms.len()
        invariant
            out@ == base2 + spec_pwm_pins(pwms@.take(i as int)),
            base2 == spec_gpio_pins(inputs@) + spec_gpio_pins(outputs@),
    {
        let ghost before = out@;
        let block = &pwms[i];
        for j in 0..block.pins.len()
            invariant
                0 <= i < pwms@.len(),
                block == &pwms@[i as int],
                before == base2 + spec_pwm_pins(pwms@.take(i as int)),
                out@ == before + block.pins@.take(j as int),
        {
            out.push(block.pins[j]);
            proof {
                assert(block.pins@.take(j + 1) =~= block.pins@.take(j as int).push(
                    block.pins@[j as int],
                ));
                assert(out@ =~= before + block.pins@.take(j + 1));
            }
        }
        proof {
            let f = |p: PWM| p.pins@;
            assert(block.pins@.take(block.pins@.len() as int) =~= block.pins@);
            pwms@.lemma_flat_map_take_append(f, i as int);
            assert(out@ =~= base2 + spec_pwm_pins(pwms@.take(i + 1)));
        }
    }
    proof {
        assert(pwms@.take(pwms@.len() as int) =~= pwms@);
    }
    let ghost base3 = base2 + spec_pwm_pins(pwms@);
    for i in 0..serials.len()
        invariant
            out@ == base3 + spec_serial_pins(serials@.take(i as int)),
            base3 == spec_gpio_pins(inputs@) + spec_gpio_pins(outputs@) + spec_pwm_pins(pwms@),
    {
        out.push(serials[i].tx);
        out.push(serials[i].rx);
        proof {
            let f = |s: Serial| seq![s.tx, s.rx];
            serials@.lemma_flat_map_take_append(f, i as int);
            assert(out@ =~= base3 + spec_serial_pins(serials@.take(i + 1)));
        }
    }
    proof {
        assert(serials@.take(serials@.len() as int) =~= serials@);
        assert(out@ =~= spec_all_pins(inputs@, outputs@, pwms@, serials@));
    }
    out
}

/// The full operation sequence of one planning pass, in the fixed phase
/// order the hardware requires: device singleton and flash; the clock tree,
/// when a system clock was specified; the per-port splits; the input pins
/// with their interrupt wiring; the output pins; the PWM blocks; the serial
/// blocks.
pub open spec fn spec_plan_ops<G: Generator>(
    g: G,
    clock: Option<usize>,
    inputs: Seq<Gpio>,
    outputs: Seq<Gpio>,
    pwms: Seq<PWM>,
    serials: Seq<Serial>,
) -> Seq<Op> {
    let pins = spec_all_pins(inputs, outputs, pwms, serials);
    let clock_ops = match clock {
        Option::Some(f) => g.spec_bus() + g.spec_cfgr() + g.spec_clock(f),
        Option::None => Seq::<Op>::empty(),
    };
    g.spec_device_init() + clock_ops + spec_splits_ops(g, pins, clock is Some) + spec_inputs_ops(
        g,
        inputs,
        false,
    ) + spec_outputs_ops(g, outputs) + spec_pwms_ops(g, pwms) + spec_serials_ops(g, serials)
}

/// What a correct planning result looks like for the given strategy and
/// peripheral lists: the first gate error, or the complete plan and layout.
pub open spec fn spec_plan_matches<G: Generator>(
    g: G,
    clock: Option<usize>,
    inputs: Seq<Gpio>,
    outputs: Seq<Gpio>,
    pwms: Seq<PWM>,
    serials: Seq<Serial>,
    r: Result<(InitPlan, ResultLayout), Error>,
) -> bool {
    match spec_check_pins(spec_all_pins(inputs, outputs, pwms, serials)) {
        Ok(u) => r matches Ok(pr) && pr.0.preamble@ == g.spec_imports() && pr.0.ops@
            == spec_plan_ops(g, clock, inputs, outputs, pwms, serials) && pr.1.inputs@
            == spec_gpio_handles(inputs) && pr.1.outputs@ == spec_gpio_handles(outputs)
            && pr.1.pwm@ == spec_pwm_handles(pwms) && pr.1.channels@ == Seq::<
            InitializedGpio,
        >::empty() && pr.1.timers@ == Seq::<TimerID>::empty() && pr.1.serials@
            == spec_serial_handles(serials),
        Err(e) => r matches Err(e2) && e2 == e,
    }
}

/// Builds the initialization plan and the result layout for one validated
/// configuration, through the given lowering strategy. Planning is
/// all-or-nothing: it returns the complete plan and layout, or the first
/// error, exactly as the per-pin gate reports it.
pub fn get_init_block<G: Generator>(
    generator: G,
    clock: Option<usize>,
    inputs: &Vec<Gpio>,
    outputs: &Vec<Gpio>,
    pwms: &Vec<PWM>,
    serials: &Vec<Serial>,
) -> (r: Result<(InitPlan, ResultLayout), Error>)
    ensures
        spec_plan_matches(generator, clock, inputs@, outputs@, pwms@, serials@, r),
{
    let pins = collect_pins(inputs, outputs, pwms, serials);
    let mut di = DeviceInit::new(generator);
    let ghost ops_init = di.ops@;
    match clock {
        Option::Some(f) => {
            di.clocks(f);
        },
        Option::None => {
            proof {
                assert(di.ops@ =~= ops_init + Seq::<Op>::empty());
            }
        },
    }
    let ghost clock_ops: Seq<Op> = match clock {
        Option::Some(f) => generator.spec_bus() + generator.spec_cfgr() + generator.spec_clock(f),
        Option::None => Seq::<Op>::empty(),
    };
    proof {
        assert(di.ops@ == ops_init + clock_ops);
        assert(di.rcc == (clock is Some));
    }
    let ghost ops_clock = di.ops@;
    match di.gpios(&pins) {
        Err(e) => {
            return Err(e);
        },
        Ok(()) => {},
    }
    let ghost split_ops = spec_splits_ops(generator, pins@, clock is Some);
    proof {
        if inputs@.len() > 0 {
            assert(pins@[0] == (inputs@[0].pin, inputs@[0].port));
            assert(spec_port_used(pins@, inputs@[0].port));
            assert(di.rcc) by {
                match inputs@[0].port {
                    Port::A => assert(spec_port_used(pins@, Port::A)),
                    Port::B => assert(spec_port_used(pins@, Port::B)),
                    Port::C => assert(spec_port_used(pins@, Port::C)),
                    Port::D => assert(spec_port_used(pins@, Port::D)),
                    Port::E => assert(spec_port_used(pins@, Port::E)),
                }
            }
        }
    }
    let in_handles = di.inputs(inputs);
    let out_handles = di.outputs(outputs);
    let pwm_handles = di.pwm_blocks(pwms);
    let ser_handles = di.serials(serials);
    proof {
        assert(di.ops@ =~= spec_plan_ops(generator, clock, inputs@, outputs@, pwms@, serials@));
    }
    let (plan, layout) = di.static_init_and_return(in_handles, out_handles, pwm_handles,
        ser_handles);
    Ok((plan, layout))
}

} // verus!
