use remote_gpio::GpioError;
use remote_gpio::protocol::{GpioCommand, WriteRequest, WriteState, plan_session};

#[test]
fn write_session_applies_values_in_order() {
    let msgs = vec![
        WriteRequest::Pin { pin: 7 },
        WriteRequest::Value { value: true },
        WriteRequest::Value { value: false },
        WriteRequest::Value { value: true },
    ];
    let (cmds, outcome) = plan_session(&msgs);
    assert_eq!(
        cmds,
        vec![
            GpioCommand { pin: 7, value: true },
            GpioCommand { pin: 7, value: false },
            GpioCommand { pin: 7, value: true },
        ]
    );
    assert!(outcome.is_ok());
}

#[test]
fn leading_value_fails_with_zero_commands() {
    let msgs = vec![WriteRequest::Value { value: true }, WriteRequest::Value { value: false }];
    let (cmds, outcome) = plan_session(&msgs);
    assert!(cmds.is_empty());
    assert_eq!(outcome, Err(GpioError::ProtocolViolation));
}

#[test]
fn second_pin_fails_with_zero_commands() {
    let msgs = vec![WriteRequest::Pin { pin: 3 }, WriteRequest::Pin { pin: 4 }];
    let (cmds, outcome) = plan_session(&msgs);
    assert!(cmds.is_empty());
    assert_eq!(outcome, Err(GpioError::ProtocolViolation));
}

#[test]
fn empty_stream_is_a_violation() {
    let msgs: Vec<WriteRequest> = Vec::new();
    let (cmds, outcome) = plan_session(&msgs);
    assert!(cmds.is_empty());
    assert_eq!(outcome, Err(GpioError::ProtocolViolation));
}

#[test]
fn pin_only_stream_succeeds_with_no_commands() {
    let msgs = vec![WriteRequest::Pin { pin: 9 }];
    let (cmds, outcome) = plan_session(&msgs);
    assert!(cmds.is_empty());
    assert!(outcome.is_ok());
}

#[test]
fn commands_stop_at_a_late_violation() {
    let msgs = vec![
        WriteRequest::Pin { pin: 2 },
        WriteRequest::Value { value: true },
        WriteRequest::Pin { pin: 9 },
        WriteRequest::Value { value: false },
    ];
    let (cmds, outcome) = plan_session(&msgs);
    assert_eq!(cmds, vec![GpioCommand { pin: 2, value: true }]);
    assert_eq!(outcome, Err(GpioError::ProtocolViolation));
}

#[test]
fn unbound_step_binds_the_pin() {
    let r = WriteState::Unbound.step(&WriteRequest::Pin { pin: 21 });
    assert_eq!(r, Ok((WriteState::Bound { pin: 21 }, None)));
}

#[test]
fn bound_step_emits_one_command() {
    let r = WriteState::Bound { pin: 21 }.step(&WriteRequest::Value { value: true });
    assert_eq!(r, Ok((WriteState::Bound { pin: 21 }, Some(GpioCommand { pin: 21, value: true }))));
}

#[test]
fn value_before_binding_is_a_violation() {
    let r = WriteState::Unbound.step(&WriteRequest::Value { value: true });
    assert_eq!(r, Err(GpioError::ProtocolViolation));
}

#[test]
fn rebinding_is_a_violation() {
    let r = WriteState::Bound { pin: 3 }.step(&WriteRequest::Pin { pin: 4 });
    assert_eq!(r, Err(GpioError::ProtocolViolation));
}
