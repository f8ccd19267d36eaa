use hardware_init::config::Config;
use hardware_init::error::Error;
use hardware_init::generation::{
    DeviceInit, Group, ImportKind, Op, Stm32f1xxGenerator,
};
use hardware_init::stm32f1xx::{Gpio, InterruptMode, Pin, PinMode, Port, Timer, TimerID, PWM};
use hardware_init::types::{Sys, UnitByte, UnitHz};

fn blue_pill_config() -> Config {
    Config::Stm32f1xx {
        sys: Sys {
            sys_clock: Some((36, UnitHz::MHz)),
            heap_size: (10, UnitByte::KB),
            log: None,
        },
        gpios: vec![
            Gpio {
                pin: Pin(0),
                port: Port::A,
                mode: PinMode::InputPullUp,
                interrupt_mode: InterruptMode::Falling,
            },
            Gpio {
                pin: Pin(13),
                port: Port::C,
                mode: PinMode::OutputPushPull,
                interrupt_mode: InterruptMode::Disabled,
            },
        ],
        pwm: vec![],
        serial: vec![],
    }
}

#[test]
fn end_to_end_scenario() {
    let config = blue_pill_config();
    let (plan, layout) = config.build_plan().unwrap();
    assert_eq!(
        plan.ops,
        vec![
            Op::TakePeripherals,
            Op::ConstrainFlash,
            Op::ConstrainRcc,
            Op::TakeCfgr,
            Op::ApplySysClock(36_000_000),
            Op::FreezeClocks,
            Op::SplitPort(Port::A),
            Op::SplitPort(Port::C),
            Op::ConfigurePin(Pin(0), Port::A, PinMode::InputPullUp),
            Op::ConstrainAfio,
            Op::MakeInterruptSource(Pin(0), Port::A),
            Op::TriggerOnEdge(Pin(0), Port::A, InterruptMode::Falling),
            Op::EnableInterrupt(Pin(0), Port::A),
            Op::ConfigurePin(Pin(13), Port::C, PinMode::OutputPushPull),
        ]
    );
    assert_eq!(plan.preamble.len(), 12);
    assert_eq!(plan.preamble[0], Op::Import(ImportKind::Prelude));
    assert_eq!(plan.preamble[6], Op::DeclareStatics(Group::Inputs));
    assert_eq!(plan.preamble[11], Op::DeclareStatics(Group::Serials));

    assert_eq!(layout.inputs.len(), 1);
    assert_eq!(layout.inputs[0].pin, Pin(0));
    assert_eq!(layout.inputs[0].port, Port::A);
    assert_eq!(layout.inputs[0].mode, PinMode::InputPullUp);
    assert_eq!(layout.inputs[0].identifier(), "pa0");
    assert_eq!(
        layout.inputs[0].ty(),
        "stm32f1xx_hal::gpio::gpioa::PA0<stm32f1xx_hal::gpio::Input<stm32f1xx_hal::gpio::PullUp>>"
    );
    assert_eq!(layout.outputs.len(), 1);
    assert_eq!(layout.outputs[0].identifier(), "pc13");
    assert_eq!(
        layout.outputs[0].ty(),
        "stm32f1xx_hal::gpio::gpioc::PC13<stm32f1xx_hal::gpio::Output<stm32f1xx_hal::gpio::PushPull>>"
    );
    assert!(layout.pwm.is_empty());
    assert!(layout.channels.is_empty());
    assert!(layout.timers.is_empty());
    assert!(layout.serials.is_empty());
}

#[test]
fn planning_is_deterministic() {
    let config = blue_pill_config();
    let (plan1, layout1) = config.build_plan().unwrap();
    let (plan2, layout2) = config.build_plan().unwrap();
    assert_eq!(plan1.ops, plan2.ops);
    assert_eq!(plan1.preamble, plan2.preamble);
    assert_eq!(layout1.inputs, layout2.inputs);
    assert_eq!(layout1.outputs, layout2.outputs);
    assert_eq!(layout1.pwm, layout2.pwm);
    assert_eq!(layout1.serials, layout2.serials);
}

#[test]
fn clock_freeze_precedes_port_splits() {
    let config = blue_pill_config();
    let (plan, _) = config.build_plan().unwrap();
    let freeze = plan.ops.iter().position(|op| *op == Op::FreezeClocks).unwrap();
    for (i, op) in plan.ops.iter().enumerate() {
        if matches!(op, Op::SplitPort(_)) {
            assert!(freeze < i);
        }
    }
    let afio = plan.ops.iter().position(|op| *op == Op::ConstrainAfio).unwrap();
    for (i, op) in plan.ops.iter().enumerate() {
        let wiring = matches!(
            op,
            Op::MakeInterruptSource(..) | Op::TriggerOnEdge(..) | Op::EnableInterrupt(..)
        );
        if wiring {
            assert!(afio < i);
        }
    }
}

#[test]
fn duplicate_pin_aborts_planning() {
    let config = Config::Stm32f1xx {
        sys: Sys { sys_clock: None, heap_size: (1, UnitByte::KB), log: None },
        gpios: vec![
            Gpio {
                pin: Pin(4),
                port: Port::B,
                mode: PinMode::InputFloating,
                interrupt_mode: InterruptMode::Disabled,
            },
            Gpio {
                pin: Pin(4),
                port: Port::B,
                mode: PinMode::OutputPushPull,
                interrupt_mode: InterruptMode::Disabled,
            },
        ],
        pwm: vec![],
        serial: vec![],
    };
    assert_eq!(
        config.build_plan().map(|_| ()),
        Err(Error::DuplicatePinUse(Pin(4), Port::B))
    );
}

#[test]
fn pin_shared_between_gpio_and_pwm_aborts_planning() {
    // pin A0 as a plain input and pin A0 as a PWM channel pin: exactly as
    // invalid as two plain entries for the same pin
    let config = Config::Stm32f1xx {
        sys: Sys { sys_clock: None, heap_size: (1, UnitByte::KB), log: None },
        gpios: vec![
            Gpio {
                pin: Pin(0),
                port: Port::A,
                mode: PinMode::InputPullUp,
                interrupt_mode: InterruptMode::Disabled,
            },
        ],
        pwm: vec![PWM {
            timer: Timer { id: TimerID::Tim2 },
            pins: vec![(Pin(0), Port::A)],
            frequency: None,
        }],
        serial: vec![],
    };
    assert_eq!(
        config.build_plan().map(|_| ()),
        Err(Error::DuplicatePinUse(Pin(0), Port::A))
    );
}

#[test]
fn out_of_range_pin_aborts_planning() {
    let config = Config::Stm32f1xx {
        sys: Sys { sys_clock: None, heap_size: (1, UnitByte::KB), log: None },
        gpios: vec![
            Gpio {
                pin: Pin(16),
                port: Port::A,
                mode: PinMode::InputFloating,
                interrupt_mode: InterruptMode::Disabled,
            },
        ],
        pwm: vec![],
        serial: vec![],
    };
    assert_eq!(config.build_plan().map(|_| ()), Err(Error::PinOutOfRange));
}

#[test]
fn no_clock_still_splits_ports() {
    let config = Config::Stm32f1xx {
        sys: Sys { sys_clock: None, heap_size: (1, UnitByte::KB), log: None },
        gpios: vec![
            Gpio {
                pin: Pin(13),
                port: Port::C,
                mode: PinMode::OutputPushPull,
                interrupt_mode: InterruptMode::Disabled,
            },
        ],
        pwm: vec![],
        serial: vec![],
    };
    let (plan, _) = config.build_plan().unwrap();
    assert_eq!(
        plan.ops,
        vec![
            Op::TakePeripherals,
            Op::ConstrainFlash,
            Op::ConstrainRcc,
            Op::SplitPort(Port::C),
            Op::ConfigurePin(Pin(13), Port::C, PinMode::OutputPushPull),
        ]
    );
}

#[test]
fn ports_split_once_in_stable_order() {
    // two pins on port C and one on port A: port A splits first, port C once
    let config = Config::Stm32f1xx {
        sys: Sys { sys_clock: None, heap_size: (1, UnitByte::KB), log: None },
        gpios: vec![
            Gpio {
                pin: Pin(14),
                port: Port::C,
                mode: PinMode::OutputPushPull,
                interrupt_mode: InterruptMode::Disabled,
            },
            Gpio {
                pin: Pin(13),
                port: Port::C,
                mode: PinMode::OutputOpenDrain,
                interrupt_mode: InterruptMode::Disabled,
            },
            Gpio {
                pin: Pin(1),
                port: Port::A,
                mode: PinMode::OutputPushPull,
                interrupt_mode: InterruptMode::Disabled,
            },
        ],
        pwm: vec![],
        serial: vec![],
    };
    let (plan, _) = config.build_plan().unwrap();
    let splits: Vec<&Op> = plan.ops.iter().filter(|op| matches!(op, Op::SplitPort(_))).collect();
    assert_eq!(splits, vec![&Op::SplitPort(Port::A), &Op::SplitPort(Port::C)]);
}

#[test]
fn dummy_family_plans_no_operations() {
    let config = Config::Dummy {
        sys: Sys { sys_clock: Some((8, UnitHz::MHz)), heap_size: (1, UnitByte::KB), log: None },
        gpios: vec![
            Gpio {
                pin: Pin(0),
                port: Port::A,
                mode: PinMode::InputFloating,
                interrupt_mode: InterruptMode::Disabled,
            },
        ],
        pwm: vec![],
        serial: vec![],
    };
    let (plan, layout) = config.build_plan().unwrap();
    assert!(plan.preamble.is_empty());
    assert!(plan.ops.is_empty());
    // the layout still records the handle the caller will receive
    assert_eq!(layout.inputs.len(), 1);
}

#[test]
fn init_statements_flatten_preamble_and_ops() {
    let config = blue_pill_config();
    let (plan, _) = config.build_plan().unwrap();
    let stmts = config.init_statements().unwrap();
    assert_eq!(stmts.len(), plan.preamble.len() + plan.ops.len());
    assert_eq!(&stmts[..plan.preamble.len()], &plan.preamble[..]);
    assert_eq!(&stmts[plan.preamble.len()..], &plan.ops[..]);
}

#[test]
fn reacquire_after_freeze_is_fatal() {
    let mut di = DeviceInit::new(Stm32f1xxGenerator);
    assert_eq!(di.cfgr(), Ok(()));
    di.clocks(8_000_000);
    assert_eq!(di.cfgr(), Err(Error::ReacquireAfterFreeze));
}

#[test]
fn accessors_are_memoized() {
    let mut di = DeviceInit::new(Stm32f1xxGenerator);
    di.rcc();
    di.rcc();
    di.afio();
    di.afio();
    di.split_port(Port::B);
    di.split_port(Port::B);
    assert_eq!(
        di.ops,
        vec![
            Op::TakePeripherals,
            Op::ConstrainFlash,
            Op::ConstrainRcc,
            Op::ConstrainAfio,
            Op::SplitPort(Port::B),
        ]
    );
}

#[test]
fn clocks_are_memoized() {
    let mut di = DeviceInit::new(Stm32f1xxGenerator);
    di.clocks(8_000_000);
    di.clocks(16_000_000);
    assert_eq!(
        di.ops,
        vec![
            Op::TakePeripherals,
            Op::ConstrainFlash,
            Op::ConstrainRcc,
            Op::TakeCfgr,
            Op::ApplySysClock(8_000_000),
            Op::FreezeClocks,
        ]
    );
}
