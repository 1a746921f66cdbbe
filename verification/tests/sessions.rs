use remote_gpio::protocol::{GpioCommand, WriteRequest};
use remote_gpio::registry::{level_is_high, level_of, LineRegistry};
use remote_gpio::session::{ReadSession, WriteSession};
use remote_gpio::GpioError;

#[test]
fn read_session_starts_active() {
    let s = ReadSession::new(26, 10);
    assert_eq!(s.pin, 26);
    assert_eq!(s.interval_ms, 10);
    assert!(s.is_active());
}

#[test]
fn read_session_survives_successful_deliveries() {
    let mut s = ReadSession::new(5, 0);
    s.on_delivery(true);
    s.on_delivery(true);
    assert!(s.is_active());
}

#[test]
fn read_session_terminates_on_failed_delivery() {
    let mut s = ReadSession::new(5, 100);
    s.on_delivery(true);
    s.on_delivery(false);
    assert!(!s.is_active());
}

#[test]
fn read_session_stays_terminated() {
    let mut s = ReadSession::new(5, 100);
    s.on_delivery(false);
    s.on_delivery(true);
    assert!(!s.is_active());
}

#[test]
fn opening_a_missing_chip_is_a_startup_failure() {
    let r = LineRegistry::open("no_such_gpio_chip_device_for_this_test");
    match r {
        Ok(_) => panic!("a registry appeared without the device"),
        Err(e) => assert_eq!(e, GpioError::StartupFailure),
    }
}

#[test]
fn nonzero_levels_read_as_true() {
    assert!(!level_is_high(0));
    assert!(level_is_high(1));
    assert!(level_is_high(2));
    assert!(level_is_high(255));
}

#[test]
fn values_drive_levels_one_and_zero() {
    assert_eq!(level_of(true), 1);
    assert_eq!(level_of(false), 0);
}

#[test]
fn write_session_decides_commands_in_order() {
    let mut s = WriteSession::new();
    assert_eq!(s.advance(&WriteRequest::Pin { pin: 7 }), Ok(None));
    assert_eq!(
        s.advance(&WriteRequest::Value { value: true }),
        Ok(Some(GpioCommand { pin: 7, value: true }))
    );
    assert_eq!(
        s.advance(&WriteRequest::Value { value: false }),
        Ok(Some(GpioCommand { pin: 7, value: false }))
    );
    assert_eq!(s.finish(), Ok(()));
}

#[test]
fn write_session_refuses_a_leading_value() {
    let mut s = WriteSession::new();
    assert_eq!(
        s.advance(&WriteRequest::Value { value: true }),
        Err(GpioError::ProtocolViolation)
    );
}

#[test]
fn write_session_refuses_a_second_pin() {
    let mut s = WriteSession::new();
    assert_eq!(s.advance(&WriteRequest::Pin { pin: 3 }), Ok(None));
    assert_eq!(s.advance(&WriteRequest::Pin { pin: 4 }), Err(GpioError::ProtocolViolation));
}

#[test]
fn an_empty_write_stream_fails_at_its_end() {
    let s = WriteSession::new();
    assert_eq!(s.finish(), Err(GpioError::ProtocolViolation));
}

#[test]
fn a_bound_session_acknowledges_at_its_end() {
    let mut s = WriteSession::new();
    assert_eq!(s.advance(&WriteRequest::Pin { pin: 9 }), Ok(None));
    assert_eq!(s.finish(), Ok(()));
}

#[test]
fn error_descriptions_name_each_failure() {
    assert_eq!(GpioError::StartupFailure.describe(), "cannot open the gpio chip device");
    assert_eq!(GpioError::LineAcquisition.describe(), "cannot acquire the gpio line");
    assert_eq!(
        GpioError::ProtocolViolation.describe(),
        "expected a pin number first, then values only"
    );
    assert_eq!(GpioError::HardwareIo.describe(), "cannot operate the gpio pin");
}
