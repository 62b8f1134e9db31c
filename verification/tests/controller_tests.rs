use rs485_switch::codec::{
    ReadSwitchState, WriteSwitchState, READ_SWITCH_STATE_ADDRESS, WRITE_BAUD_RATE_ADDRESS,
    WRITE_SWITCH_STATE_ADDRESS,
};
use rs485_switch::config::ModbusConfig;
use rs485_switch::controller::{
    get_switch_state_result, operate_switch_result, resolve_read_outcome, resolve_write_outcome,
    set_baud_rate_result, BusOutcome, BusRequest, SwitchController, DEFAULT_SERIAL_TIMEOUT_MILLIS,
};
use rs485_switch::error::SwitchError;

fn test_config() -> ModbusConfig {
    ModbusConfig {
        port_name: String::from("/dev/ttyUSB0"),
        baud_rate: 9600,
        slave_id: 7,
        timeout: 1500,
    }
}

#[test]
fn fresh_controller_is_disconnected() {
    let controller = SwitchController::new();
    assert!(!controller.is_connected());
    assert_eq!(controller.response_timeout_millis(), None);
}

#[test]
fn operations_while_disconnected_fail_with_not_connected() {
    let controller = SwitchController::new();
    assert_eq!(
        controller.operate_switch(WriteSwitchState::Open),
        Err(SwitchError::NotConnected)
    );
    assert_eq!(controller.get_switch_state(), Err(SwitchError::NotConnected));
    assert_eq!(controller.set_baud_rate(4800), Err(SwitchError::NotConnected));
    let mut controller = controller;
    assert_eq!(controller.disconnect(), Err(SwitchError::NotConnected));
}

#[test]
fn connect_begin_hands_back_the_transport_plan() {
    let controller = SwitchController::new();
    let config = test_config();
    let plan = controller.connect_begin(&config).unwrap();
    assert_eq!(plan.port_name, "/dev/ttyUSB0");
    assert_eq!(plan.baud_rate, 9600);
    assert_eq!(plan.io_timeout_millis, DEFAULT_SERIAL_TIMEOUT_MILLIS);
}

#[test]
fn connect_established_records_the_session() {
    let mut controller = SwitchController::new();
    let config = test_config();
    assert_eq!(controller.connect_established(&config), Ok(()));
    assert!(controller.is_connected());
    assert_eq!(controller.response_timeout_millis(), Some(1500));
}

#[test]
fn read_state_after_connect_then_disconnect_fails_with_not_connected() {
    let mut controller = SwitchController::new();
    let config = test_config();
    controller.connect_begin(&config).unwrap();
    assert_eq!(controller.connect_established(&config), Ok(()));
    assert_eq!(controller.disconnect(), Ok(()));
    assert_eq!(controller.get_switch_state(), Err(SwitchError::NotConnected));
}

#[test]
fn second_connect_while_connected_is_rejected() {
    let mut controller = SwitchController::new();
    let config = test_config();
    assert_eq!(controller.connect_established(&config), Ok(()));
    assert_eq!(
        controller.connect_begin(&config).unwrap_err(),
        SwitchError::AlreadyConnected
    );
    assert_eq!(
        controller.connect_established(&config),
        Err(SwitchError::AlreadyConnected)
    );
    // The live session is untouched by the rejected attempt.
    assert!(controller.is_connected());
    assert_eq!(controller.response_timeout_millis(), Some(1500));
}

#[test]
fn operate_builds_the_single_register_write() {
    let mut controller = SwitchController::new();
    controller.connect_established(&test_config()).unwrap();
    let cases = [
        (WriteSwitchState::Open, 0x01),
        (WriteSwitchState::Close, 0x02),
        (WriteSwitchState::Lock, 0x03),
        (WriteSwitchState::Unlock, 0x04),
    ];
    for (command, expected) in cases {
        let request = controller.operate_switch(command).unwrap();
        assert_eq!(
            request,
            BusRequest::WriteSingle { address: WRITE_SWITCH_STATE_ADDRESS, value: expected }
        );
    }
}

#[test]
fn get_switch_state_builds_the_two_register_read() {
    let mut controller = SwitchController::new();
    controller.connect_established(&test_config()).unwrap();
    let request = controller.get_switch_state().unwrap();
    assert_eq!(
        request,
        BusRequest::ReadHolding { address: READ_SWITCH_STATE_ADDRESS, count: 2 }
    );
}

#[test]
fn set_baud_rate_builds_the_two_word_write() {
    let mut controller = SwitchController::new();
    controller.connect_established(&test_config()).unwrap();
    let request = controller.set_baud_rate(115200).unwrap();
    assert_eq!(
        request,
        BusRequest::WriteMultiple {
            address: WRITE_BAUD_RATE_ADDRESS,
            values: vec![0x0001, 0xC200],
        }
    );
}

#[test]
fn write_outcome_ack_is_success() {
    assert_eq!(resolve_write_outcome(&BusOutcome::Ack, "cannot operate the switch"), Ok(()));
    assert_eq!(operate_switch_result(&BusOutcome::Ack), Ok(()));
    assert_eq!(set_baud_rate_result(&BusOutcome::Ack), Ok(()));
}

#[test]
fn write_outcome_failure_is_a_protocol_error() {
    match operate_switch_result(&BusOutcome::Failed) {
        Err(SwitchError::Protocol { description }) => {
            assert_eq!(description, "cannot operate the switch");
        },
        other => panic!("expected a protocol error, got {:?}", other),
    }
    match set_baud_rate_result(&BusOutcome::Failed) {
        Err(SwitchError::Protocol { description }) => {
            assert_eq!(description, "cannot change the baud rate");
        },
        other => panic!("expected a protocol error, got {:?}", other),
    }
}

#[test]
fn write_outcome_timeout_embeds_description_and_timestamp() {
    match operate_switch_result(&BusOutcome::TimedOut) {
        Err(SwitchError::Timeout { description, timestamp }) => {
            assert_eq!(description, "cannot operate the switch");
            // A wall-clock timestamp in year-month-day form.
            assert!(timestamp.len() >= 19, "timestamp too short: {timestamp}");
        },
        other => panic!("expected a timeout error, got {:?}", other),
    }
}

#[test]
fn read_outcome_registers_pass_through() {
    assert_eq!(
        resolve_read_outcome(BusOutcome::Registers(vec![7, 8]), "cannot read the switch state"),
        Ok(vec![7, 8])
    );
}

#[test]
fn read_outcome_timeout_is_a_timeout_error() {
    match resolve_read_outcome(BusOutcome::TimedOut, "cannot read the switch state") {
        Err(SwitchError::Timeout { description, .. }) => {
            assert_eq!(description, "cannot read the switch state");
        },
        other => panic!("expected a timeout error, got {:?}", other),
    }
}

#[test]
fn state_readback_decodes_the_low_byte_of_the_second_register() {
    assert_eq!(
        get_switch_state_result(BusOutcome::Registers(vec![0xFFFF, 0x0100])),
        Ok(ReadSwitchState::Close)
    );
    assert_eq!(
        get_switch_state_result(BusOutcome::Registers(vec![0, 0x0001])),
        Ok(ReadSwitchState::Open)
    );
    assert_eq!(
        get_switch_state_result(BusOutcome::Registers(vec![0, 0xAB02])),
        Ok(ReadSwitchState::Lock)
    );
}

#[test]
fn state_readback_refuses_unknown_bytes() {
    assert_eq!(
        get_switch_state_result(BusOutcome::Registers(vec![0, 0x0003])),
        Err(SwitchError::Decode { raw: 3 })
    );
    assert_eq!(
        get_switch_state_result(BusOutcome::Registers(vec![0, 0x00FF])),
        Err(SwitchError::Decode { raw: 0xFF })
    );
}

#[test]
fn state_readback_refuses_the_wrong_register_count() {
    match get_switch_state_result(BusOutcome::Registers(vec![0x0001])) {
        Err(SwitchError::Protocol { description }) => {
            assert_eq!(description, "the state readback held the wrong number of registers");
        },
        other => panic!("expected a protocol error, got {:?}", other),
    }
}

#[test]
fn error_messages_are_descriptive() {
    assert_eq!(SwitchError::NotConnected.message(), "the switch is not connected");
    assert_eq!(SwitchError::AlreadyConnected.message(), "the switch is already connected");
    let transport = SwitchError::Transport { detail: String::from("no such port") };
    assert_eq!(transport.message(), "cannot open the serial port: no such port");
    let timeout = SwitchError::Timeout {
        description: String::from("cannot operate the switch"),
        timestamp: String::from("2020-01-01 00:00:00.000"),
    };
    assert_eq!(
        timeout.message(),
        "cannot operate the switch: the bus transaction timed out at 2020-01-01 00:00:00.000"
    );
    assert_eq!(SwitchError::Decode { raw: 9 }.message(), "cannot decode the switch state readback");
    assert_eq!(SwitchError::SessionClosed.message(), "the session is already closed");
}
