use hardware_init::error::Error;
use hardware_init::stm32f1xx::{
    gpio_ident, gpio_short_type, Bank, Gpio, InterruptMode, Pin, PinMode, Port,
};
use hardware_init::types::{Direction, PinMode as GenericMode, TriggerEdge};

#[test]
fn pin_parsing_round_trip() {
    assert_eq!(Gpio::parse_pin("PA0"), Ok((Pin(0), Port::A)));
    assert_eq!(Gpio::parse_pin("pb5"), Ok((Pin(5), Port::B)));
    assert_eq!(Gpio::parse_pin("pc13"), Ok((Pin(13), Port::C)));
    assert_eq!(Gpio::parse_pin("Pd15"), Ok((Pin(15), Port::D)));
    assert_eq!(Gpio::parse_pin("e7"), Ok((Pin(7), Port::E)));
    assert_eq!(Gpio::parse_pin("pc16"), Err(Error::PinOutOfRange));
    assert_eq!(Gpio::parse_pin("PF0"), Err(Error::InvalidPinName));
    assert_eq!(Gpio::parse_pin("PA"), Err(Error::InvalidPinNumber));
    assert_eq!(Gpio::parse_pin("PAx"), Err(Error::InvalidPinNumber));
    assert_eq!(Gpio::parse_pin("p"), Err(Error::InvalidPinName));
    assert_eq!(Gpio::parse_pin(""), Err(Error::InvalidPinName));
    assert_eq!(Gpio::parse_pin("pa007"), Ok((Pin(7), Port::A)));
    assert_eq!(Gpio::parse_pin("pa99999999999999999999"), Err(Error::PinOutOfRange));
}

#[test]
fn pin_parsing_rejects_odd_characters() {
    // characters adjacent to the ASCII letter ranges fold to nothing
    assert_eq!(Gpio::parse_pin("@0"), Err(Error::InvalidPinName));
    assert_eq!(Gpio::parse_pin("[0"), Err(Error::InvalidPinName));
    // a non-ASCII letter is not a port
    assert_eq!(Gpio::parse_pin("pä0"), Err(Error::InvalidPinName));
    assert_eq!(Gpio::parse_pin("pa½"), Err(Error::InvalidPinNumber));
}

#[test]
fn bank_assignment() {
    for n in 0..8usize {
        assert_eq!(Pin(n).bank(), Bank::Low);
        assert_eq!(Pin(n).control_reg(), "crl");
    }
    for n in 8..16usize {
        assert_eq!(Pin(n).bank(), Bank::High);
        assert_eq!(Pin(n).control_reg(), "crh");
    }
}

#[test]
fn port_names() {
    assert_eq!(Port::A.lower(), "gpioa");
    assert_eq!(Port::E.lower(), "gpioe");
    assert_eq!(Port::B.upper(), "GPIOB");
    assert_eq!(Port::C.short(), 'c');
}

#[test]
fn identifiers_and_short_types() {
    assert_eq!(gpio_ident(Pin(0), Port::A), "pa0");
    assert_eq!(gpio_ident(Pin(13), Port::C), "pc13");
    assert_eq!(gpio_short_type(Pin(0), Port::A), "PA0");
    assert_eq!(gpio_short_type(Pin(13), Port::C), "PC13");
}

#[test]
fn mode_name_tables() {
    assert_eq!(PinMode::InputFloating.init_function_name(), "into_floating_input");
    assert_eq!(PinMode::InputPullUp.init_function_name(), "into_pull_up_input");
    assert_eq!(PinMode::InputPullDown.init_function_name(), "into_pull_down_input");
    assert_eq!(PinMode::OutputPushPull.init_function_name(), "into_push_pull_output");
    assert_eq!(PinMode::OutputOpenDrain.init_function_name(), "into_open_drain_output");
    // every pull mode is an input; push-pull and open-drain are outputs
    assert_eq!(PinMode::InputPullDown.direction_name(), "Input");
    assert_eq!(PinMode::InputPullUp.direction_name(), "Input");
    assert_eq!(PinMode::OutputPushPull.direction_name(), "Output");
    assert_eq!(PinMode::OutputPushPull.mode_name(), "PushPull");
    assert_eq!(PinMode::OutputOpenDrain.mode_name(), "OpenDrain");
    assert_eq!(PinMode::InputPullDown.mode_name(), "PullDown");
}

#[test]
fn interrupt_mode_idents() {
    assert_eq!(InterruptMode::Rising.ident(), "RISING");
    assert_eq!(InterruptMode::Falling.ident(), "FALLING");
    assert_eq!(InterruptMode::RisingFalling.ident(), "RISING_FALLING");
}

#[test]
fn trigger_edge_round_trip() {
    let modes = [
        InterruptMode::Disabled,
        InterruptMode::Rising,
        InterruptMode::Falling,
        InterruptMode::RisingFalling,
    ];
    for m in modes {
        assert_eq!(InterruptMode::from_trigger_edge(m.trigger_edge()), m);
    }
    assert_eq!(InterruptMode::from_trigger_edge(Some(TriggerEdge::All)),
        InterruptMode::RisingFalling);
    assert_eq!(InterruptMode::Disabled.trigger_edge(), None);
}

#[test]
fn generic_mode_directions() {
    assert_eq!(GenericMode::Analog.direction(), Direction::Input);
    assert_eq!(GenericMode::Floating.direction(), Direction::Input);
    assert_eq!(GenericMode::PullUp.direction(), Direction::Input);
    assert_eq!(GenericMode::PullDown.direction(), Direction::Input);
    assert_eq!(GenericMode::PushPull.direction(), Direction::Output);
    assert_eq!(GenericMode::OpenDrain.direction(), Direction::Output);
    assert_eq!(Direction::Input.to_type_string(), "Input");
    assert_eq!(Direction::Output.to_type_string(), "Output");
    assert_eq!(GenericMode::PushPull.to_string(), "push_pull");
    assert_eq!(GenericMode::PushPull.to_type_string(), "PushPull");
    assert_eq!(GenericMode::Analog.to_string(), "analog");
}
