use hardware_init::error::Error;
use hardware_init::stm32f1xx::{Pin, Port};
use hardware_init::validate::{check_pins, validate};

#[test]
fn duplicate_across_classes_rejected() {
    // the same physical pin claimed as plain input and as a PWM channel
    let pins = vec![(Pin(0), Port::A), (Pin(13), Port::C), (Pin(0), Port::A)];
    assert_eq!(validate(&pins), Err(Error::DuplicatePinUse(Pin(0), Port::A)));
}

#[test]
fn distinct_pins_validate() {
    let pins = vec![
        (Pin(0), Port::A),
        (Pin(0), Port::B),
        (Pin(1), Port::A),
        (Pin(13), Port::C),
    ];
    assert_eq!(validate(&pins), Ok(()));
}

#[test]
fn first_duplicate_decides() {
    let pins = vec![
        (Pin(1), Port::B),
        (Pin(2), Port::B),
        (Pin(2), Port::B),
        (Pin(1), Port::B),
    ];
    assert_eq!(validate(&pins), Err(Error::DuplicatePinUse(Pin(2), Port::B)));
}

#[test]
fn empty_pin_list_validates() {
    let pins: Vec<(Pin, Port)> = vec![];
    assert_eq!(validate(&pins), Ok(()));
    assert_eq!(check_pins(&pins), Ok(()));
}

#[test]
fn out_of_range_pin_rejected() {
    let pins = vec![(Pin(3), Port::A), (Pin(16), Port::A)];
    assert_eq!(check_pins(&pins), Err(Error::PinOutOfRange));
}

#[test]
fn range_error_checked_per_pin_in_order() {
    // the duplicate comes before the out-of-range pin in claim order
    let pins = vec![(Pin(3), Port::A), (Pin(3), Port::A), (Pin(16), Port::A)];
    assert_eq!(check_pins(&pins), Err(Error::DuplicatePinUse(Pin(3), Port::A)));
    // and the other way round
    let pins2 = vec![(Pin(16), Port::A), (Pin(3), Port::A), (Pin(3), Port::A)];
    assert_eq!(check_pins(&pins2), Err(Error::PinOutOfRange));
}
