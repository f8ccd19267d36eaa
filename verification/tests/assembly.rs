use hardware_init::config::Config;
use hardware_init::device::{Baud, Hertz};
use hardware_init::error::Error;
use hardware_init::generation::{Group, ImportKind, Op};
use hardware_init::stm32f1xx::{
    parse_pins, Gpio, Gpios, InterruptMode, Pin, PinMode, Port, Serial, SerialID,
    Stm32f1xxPeripherals, Timer, TimerID, PWM,
};
use hardware_init::types::{Sys, UnitByte};

#[test]
fn input_gpio_assembly() {
    let g = Gpio::input_from_parts(Some("PA0"), Some("pull_up"), Some("falling")).unwrap();
    assert_eq!(g.pin, Pin(0));
    assert_eq!(g.port, Port::A);
    assert_eq!(g.mode, PinMode::InputPullUp);
    assert_eq!(g.interrupt_mode, InterruptMode::Falling);

    let quiet = Gpio::input_from_parts(Some("pb4"), Some("floating"), None).unwrap();
    assert_eq!(quiet.interrupt_mode, InterruptMode::Disabled);
    let none = Gpio::input_from_parts(Some("pb4"), Some("pull_down"), Some("none")).unwrap();
    assert_eq!(none.mode, PinMode::InputPullDown);
    assert_eq!(none.interrupt_mode, InterruptMode::Disabled);
    let both = Gpio::input_from_parts(Some("pb4"), Some("floating"), Some("rising_falling"))
        .unwrap();
    assert_eq!(both.interrupt_mode, InterruptMode::RisingFalling);
}

#[test]
fn input_gpio_assembly_errors() {
    assert_eq!(
        Gpio::input_from_parts(None, Some("pull_up"), None),
        Err(Error::MissingRequiredField)
    );
    assert_eq!(
        Gpio::input_from_parts(Some("PA0"), None, None),
        Err(Error::MissingRequiredField)
    );
    assert_eq!(
        Gpio::input_from_parts(Some("PA0"), Some("sideways"), None),
        Err(Error::UnknownMode)
    );
    assert_eq!(
        Gpio::input_from_parts(Some("PA0"), Some("pull_up"), Some("sometimes")),
        Err(Error::UnknownTriggerEdge)
    );
    assert_eq!(
        Gpio::input_from_parts(Some("PF0"), Some("pull_up"), None),
        Err(Error::InvalidPinName)
    );
}

#[test]
fn output_gpio_assembly() {
    let g = Gpio::output_from_parts(Some("pc13"), Some("push_pull")).unwrap();
    assert_eq!(g.pin, Pin(13));
    assert_eq!(g.port, Port::C);
    assert_eq!(g.mode, PinMode::OutputPushPull);
    assert_eq!(g.interrupt_mode, InterruptMode::Disabled);
    let od = Gpio::output_from_parts(Some("pb5"), Some("OPEN_DRAIN")).unwrap();
    assert_eq!(od.mode, PinMode::OutputOpenDrain);
    assert_eq!(
        Gpio::output_from_parts(Some("pb5"), Some("pull_up")),
        Err(Error::UnknownMode)
    );
    assert_eq!(Gpio::output_from_parts(Some("pb5"), None), Err(Error::MissingRequiredField));
}

#[test]
fn timer_and_serial_identities() {
    assert_eq!(Timer::from_str("tim1").unwrap().id, TimerID::Tim1);
    assert_eq!(Timer::from_str("Tim2").unwrap().id, TimerID::Tim2);
    assert_eq!(Timer::from_str("TIM3").unwrap().id, TimerID::Tim3);
    assert_eq!(Timer::from_str("tim4"), Err(Error::UnknownPeripheralIdentity));
    assert_eq!(SerialID::from_str("usart1"), Ok(SerialID::Usart1));
    assert_eq!(SerialID::from_str("USART3"), Ok(SerialID::Usart3));
    assert_eq!(SerialID::from_str("uart9"), Err(Error::UnknownPeripheralIdentity));
    assert_eq!(SerialID::Usart1.name(), "usart1");
    assert_eq!(SerialID::Usart1.ident(), "Usart1");
    assert_eq!(SerialID::Usart2.pac_name(), "USART2");
    assert_eq!(TimerID::Tim2.pac_name(), "TIM2");
}

#[test]
fn serial_assembly() {
    let s = Serial::from_parts(Some("usart1"), Some("PB7"), Some("PB6"), Some(9600)).unwrap();
    assert_eq!(s.id, SerialID::Usart1);
    assert_eq!(s.rx, (Pin(7), Port::B));
    assert_eq!(s.tx, (Pin(6), Port::B));
    assert_eq!(s.baud_rate, Baud(9600));
    assert_eq!(
        Serial::from_parts(None, Some("PB7"), Some("PB6"), Some(9600)),
        Err(Error::MissingRequiredField)
    );
    assert_eq!(
        Serial::from_parts(Some("usart1"), None, Some("PB6"), Some(9600)),
        Err(Error::MissingRequiredField)
    );
    assert_eq!(
        Serial::from_parts(Some("usart1"), Some("PB7"), Some("PB6"), None),
        Err(Error::MissingRequiredField)
    );
    assert_eq!(
        Serial::from_parts(Some("usart7"), Some("PB7"), Some("PB6"), Some(9600)),
        Err(Error::UnknownPeripheralIdentity)
    );
    assert_eq!(
        Serial::from_parts(Some("usart1"), Some("PB77"), Some("PB6"), Some(9600)),
        Err(Error::PinOutOfRange)
    );
    assert_eq!(
        Serial::from_parts(Some("usart1"), Some("PB7"), Some("PB6"), Some(-9600)),
        Err(Error::InvalidNumber)
    );
}

#[test]
fn pwm_assembly() {
    let names = vec![String::from("PA1"), String::from("pa2")];
    let p = PWM::from_parts(Some("tim2"), &names, Some("10khz")).unwrap();
    assert_eq!(p.timer.id, TimerID::Tim2);
    assert_eq!(p.pins, vec![(Pin(1), Port::A), (Pin(2), Port::A)]);
    assert_eq!(p.frequency, Some(Hertz(10_000)));
    let no_freq = PWM::from_parts(Some("tim1"), &names, None).unwrap();
    assert_eq!(no_freq.frequency, None);
    assert_eq!(
        PWM::from_parts(None, &names, None),
        Err(Error::MissingRequiredField)
    );
    assert_eq!(
        PWM::from_parts(Some("tim9"), &names, None),
        Err(Error::UnknownPeripheralIdentity)
    );
    let bad = vec![String::from("PA1"), String::from("PG2")];
    assert_eq!(PWM::from_parts(Some("tim2"), &bad, None), Err(Error::InvalidPinName));
    assert_eq!(
        PWM::from_parts(Some("tim2"), &names, Some("10kmh")),
        Err(Error::UnknownUnit)
    );
}

#[test]
fn pin_list_parsing() {
    let names = vec![String::from("PA1"), String::from("pb2"), String::from("c3")];
    assert_eq!(
        parse_pins(&names).unwrap(),
        vec![(Pin(1), Port::A), (Pin(2), Port::B), (Pin(3), Port::C)]
    );
    let empty: Vec<String> = vec![];
    assert_eq!(parse_pins(&empty).unwrap(), vec![]);
    let bad = vec![String::from("PA1"), String::from("PA99")];
    assert_eq!(parse_pins(&bad), Err(Error::PinOutOfRange));
}

fn serial_config() -> Config {
    Config::Stm32f1xx {
        sys: Sys { sys_clock: None, heap_size: (1, UnitByte::KB), log: None },
        gpios: vec![
            Gpio {
                pin: Pin(0),
                port: Port::A,
                mode: PinMode::InputPullUp,
                interrupt_mode: InterruptMode::Rising,
            },
            Gpio {
                pin: Pin(13),
                port: Port::C,
                mode: PinMode::OutputPushPull,
                interrupt_mode: InterruptMode::Disabled,
            },
        ],
        pwm: vec![PWM {
            timer: Timer { id: TimerID::Tim2 },
            pins: vec![(Pin(1), Port::A)],
            frequency: Some(Hertz(10_000)),
        }],
        serial: vec![Serial {
            id: SerialID::Usart1,
            rx: (Pin(7), Port::B),
            tx: (Pin(6), Port::B),
            baud_rate: Baud(9600),
        }],
    }
}

#[test]
fn config_queries() {
    let config = serial_config();
    assert_eq!(config.gpios().len(), 2);
    assert_eq!(config.input_pins().len(), 1);
    assert_eq!(config.output_pins().len(), 1);
    assert_eq!(config.input_idents(), vec![String::from("pa0")]);
    assert_eq!(config.output_idents(), vec![String::from("pc13")]);
    assert_eq!(
        config.input_tys(),
        vec![String::from(
            "stm32f1xx_hal::gpio::gpioa::PA0<stm32f1xx_hal::gpio::Input<stm32f1xx_hal::gpio::PullUp>>"
        )]
    );
    assert_eq!(config.pwm_pins(), vec![(Pin(1), Port::A)]);
    assert_eq!(config.pwm_idents(), vec![String::from("pa1")]);
    assert_eq!(
        config.pwm_tys(),
        vec![String::from("stm32f1xx_hal::pwm::PwmChannel<stm32f1xx_hal::pac::TIM2>")]
    );
    assert_eq!(config.serial_rx_pins(), vec![(Pin(7), Port::B)]);
    assert_eq!(config.serial_tx_pins(), vec![(Pin(6), Port::B)]);
    assert_eq!(config.serial_idents(), vec![String::from("usart1")]);
    assert_eq!(
        config.serial_rx_tys(),
        vec![String::from("stm32f1xx_hal::serial::Rx<stm32f1xx_hal::pac::USART1>")]
    );
    assert_eq!(
        config.serial_tx_tys(),
        vec![String::from("stm32f1xx_hal::serial::Tx<stm32f1xx_hal::pac::USART1>")]
    );
    assert_eq!(
        config.serial_read_err_tys(),
        vec![String::from("stm32f1xx_hal::serial::Error")]
    );
    assert_eq!(config.serial_word_tys(), vec![String::from("u8")]);
    assert_eq!(
        config.serial_constructors(),
        vec![String::from("Serial::new(SerialID::Usart1, usart1_tx, usart1_rx)")]
    );
}

#[test]
fn interrupt_unmask_statements() {
    let config = serial_config();
    assert_eq!(
        config.interrupt_unmasks(),
        vec![Op::UnmaskExti(Pin(0)), Op::UnmaskSerial(SerialID::Usart1)]
    );
}

#[test]
fn full_plan_with_pwm_and_serial() {
    let config = serial_config();
    let (plan, layout) = config.build_plan().unwrap();
    assert_eq!(
        plan.ops,
        vec![
            Op::TakePeripherals,
            Op::ConstrainFlash,
            Op::ConstrainRcc,
            Op::SplitPort(Port::A),
            Op::SplitPort(Port::B),
            Op::SplitPort(Port::C),
            Op::ConfigurePin(Pin(0), Port::A, PinMode::InputPullUp),
            Op::ConstrainAfio,
            Op::MakeInterruptSource(Pin(0), Port::A),
            Op::TriggerOnEdge(Pin(0), Port::A, InterruptMode::Rising),
            Op::EnableInterrupt(Pin(0), Port::A),
            Op::ConfigurePin(Pin(13), Port::C, PinMode::OutputPushPull),
            Op::ConfigurePwmChannel(TimerID::Tim2, Pin(1), Port::A),
            Op::SetPwmFrequency(TimerID::Tim2, 10_000),
            Op::ConfigureSerial(SerialID::Usart1, 9600),
        ]
    );
    assert_eq!(layout.pwm.len(), 1);
    assert_eq!(layout.pwm[0].timer, TimerID::Tim2);
    assert_eq!(layout.pwm[0].identifier(), "pa1");
    assert_eq!(layout.serials.len(), 1);
    assert_eq!(layout.serials[0].id, SerialID::Usart1);
    assert_eq!(layout.serials[0].identifier(), "usart1");
}

#[test]
fn used_gpios_collects_every_class() {
    let input = Gpio {
        pin: Pin(0),
        port: Port::A,
        mode: PinMode::InputPullUp,
        interrupt_mode: InterruptMode::Disabled,
    };
    let output = Gpio {
        pin: Pin(13),
        port: Port::C,
        mode: PinMode::OutputPushPull,
        interrupt_mode: InterruptMode::Disabled,
    };
    let peripherals = Stm32f1xxPeripherals {
        gpio: Gpios { input: vec![input], output: vec![output] },
        timer: vec![],
        pwm: vec![PWM {
            timer: Timer { id: TimerID::Tim2 },
            pins: vec![(Pin(1), Port::A), (Pin(2), Port::A)],
            frequency: None,
        }],
        serial: vec![Serial {
            id: SerialID::Usart1,
            rx: (Pin(7), Port::B),
            tx: (Pin(6), Port::B),
            baud_rate: Baud(9600),
        }],
    };
    // inputs, outputs, PWM channel pins, then serial tx/rx, in that order
    assert_eq!(
        peripherals.used_gpios(),
        vec![
            (Pin(0), Port::A),
            (Pin(13), Port::C),
            (Pin(1), Port::A),
            (Pin(2), Port::A),
            (Pin(6), Port::B),
            (Pin(7), Port::B),
        ]
    );
}

#[test]
fn op_rendering_names() {
    assert_eq!(ImportKind::Prelude.path(), "stm32f1xx_hal::prelude::*");
    assert_eq!(ImportKind::PacModule.path(), "stm32f1xx_hal::pac");
    assert_eq!(Group::Inputs.static_name(), "INPUT_PINS");
    assert_eq!(Group::Outputs.static_name(), "OUTPUT_PINS");
    assert_eq!(Group::Pwm.static_name(), "PWM_PINS");
    assert_eq!(Group::Channels.static_name(), "CHANNELS");
    assert_eq!(Group::Timers.static_name(), "TIMERS");
    assert_eq!(Group::Serials.static_name(), "SERIALS");
}
