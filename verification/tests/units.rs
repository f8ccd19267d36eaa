use hardware_init::error::Error;
use hardware_init::device::{Baud, DeviceKind, Hertz};
use hardware_init::types::{Frequency, Sys, UnitByte, UnitHz};

#[test]
fn frequency_resolution_exact() {
    assert_eq!(Frequency::from(&(36, UnitHz::MHz)).0, 36_000_000);
    assert_eq!(Frequency::from(&(1, UnitHz::Hz)).0, 1);
    assert_eq!(Frequency::from(&(8, UnitHz::KHz)).0, 8_000);
    assert_eq!(Frequency::from(&(2, UnitHz::GHz)).0, 2_000_000_000);
    assert_eq!(Frequency::hertz(72).0, 72);
    assert_eq!(Frequency::kilo_hertz(10).0, 10_000);
    assert_eq!(Frequency::mega_hertz(72).0, 72_000_000);
    assert_eq!(Frequency::giga_hertz(4).0, 4_000_000_000);
}

#[test]
fn heap_size_multiplier_table() {
    let sys = |v: usize, u: UnitByte| Sys { sys_clock: None, heap_size: (v, u), log: None };
    assert_eq!(sys(10, UnitByte::Byte).heap_size(), 10);
    // kilo is 1024 in the byte context
    assert_eq!(sys(10, UnitByte::KB).heap_size(), 10_240);
    assert_eq!(sys(2, UnitByte::MB).heap_size(), 2 * 1024 * 1024);
    // the giga multiplier is the full 1024^3
    assert_eq!(sys(1, UnitByte::GB).heap_size(), 1024 * 1024 * 1024);
}

#[test]
fn sys_clock_query() {
    let sys = Sys { sys_clock: Some((36, UnitHz::MHz)), heap_size: (10, UnitByte::KB), log: None };
    assert_eq!(sys.sys_clock(), Some(36_000_000));
    let none = Sys { sys_clock: None, heap_size: (10, UnitByte::KB), log: None };
    assert_eq!(none.sys_clock(), None);
}

#[test]
fn hz_unit_aliases() {
    assert_eq!(UnitHz::from_str("hz"), Ok(UnitHz::Hz));
    assert_eq!(UnitHz::from_str("Hz"), Ok(UnitHz::Hz));
    assert_eq!(UnitHz::from_str("k"), Ok(UnitHz::KHz));
    assert_eq!(UnitHz::from_str("K"), Ok(UnitHz::KHz));
    assert_eq!(UnitHz::from_str("khz"), Ok(UnitHz::KHz));
    assert_eq!(UnitHz::from_str("KHz"), Ok(UnitHz::KHz));
    assert_eq!(UnitHz::from_str("m"), Ok(UnitHz::MHz));
    assert_eq!(UnitHz::from_str("MHZ"), Ok(UnitHz::MHz));
    assert_eq!(UnitHz::from_str("g"), Ok(UnitHz::GHz));
    assert_eq!(UnitHz::from_str("GHz"), Ok(UnitHz::GHz));
    assert_eq!(UnitHz::from_str("hertz"), Err(Error::UnknownUnit));
    assert_eq!(UnitHz::from_str(""), Err(Error::UnknownUnit));
}

#[test]
fn byte_unit_aliases() {
    assert_eq!(UnitByte::from_str("byte"), Ok(UnitByte::Byte));
    assert_eq!(UnitByte::from_str("b"), Ok(UnitByte::Byte));
    assert_eq!(UnitByte::from_str("k"), Ok(UnitByte::KB));
    assert_eq!(UnitByte::from_str("KB"), Ok(UnitByte::KB));
    assert_eq!(UnitByte::from_str("mb"), Ok(UnitByte::MB));
    assert_eq!(UnitByte::from_str("G"), Ok(UnitByte::GB));
    assert_eq!(UnitByte::from_str("gig"), Err(Error::UnknownUnit));
}

#[test]
fn hertz_literal_parsing() {
    assert_eq!(Hertz::from_str("36mhz"), Ok(Hertz(36_000_000)));
    assert_eq!(Hertz::from_str("10khz"), Ok(Hertz(10_000)));
    assert_eq!(Hertz::from_str("100hz"), Ok(Hertz(100)));
    assert_eq!(Hertz::from_str("1GHz"), Ok(Hertz(1_000_000_000)));
    assert_eq!(Hertz::from_str("36mph"), Err(Error::UnknownUnit));
    assert_eq!(Hertz::from_str("mhz"), Err(Error::InvalidNumber));
    assert_eq!(Hertz::from_str(""), Err(Error::UnknownUnit));
}

#[test]
fn baud_parsing() {
    assert_eq!(Baud::from_str("9600"), Ok(Baud(9600)));
    assert_eq!(Baud::from_str("115200"), Ok(Baud(115200)));
    assert_eq!(Baud::from_str("96oo"), Err(Error::InvalidNumber));
    assert_eq!(Baud::from_str(""), Err(Error::InvalidNumber));
    assert_eq!(Baud::from_str("99999999999999999999"), Err(Error::InvalidNumber));
    assert_eq!(Baud::from_i64(9600), Ok(Baud(9600)));
    assert_eq!(Baud::from_i64(-1), Err(Error::InvalidNumber));
    assert_eq!(Baud::from_i64(1 << 40), Err(Error::InvalidNumber));
}

#[test]
fn device_kind_aliases() {
    assert_eq!(DeviceKind::from_str("stm32f1xx"), Ok(DeviceKind::Stm32f1xx));
    assert_eq!(DeviceKind::from_str("BluePill"), Ok(DeviceKind::Stm32f1xx));
    assert_eq!(DeviceKind::from_str("STM32F1"), Ok(DeviceKind::Stm32f1xx));
    assert_eq!(DeviceKind::from_str("blue_pill"), Ok(DeviceKind::Stm32f1xx));
    assert_eq!(DeviceKind::from_str("dummy"), Ok(DeviceKind::Dummy));
    assert_eq!(DeviceKind::from_str("DUMMY"), Ok(DeviceKind::Dummy));
    assert_eq!(DeviceKind::from_str("esp32"), Err(Error::UnknownDeviceKind));
}
