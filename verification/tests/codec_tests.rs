use rs485_switch::codec::{
    baud_rate_registers, command_value, decode_state, ReadSwitchState, WriteSwitchState,
    READ_SWITCH_STATE_ADDRESS, READ_SWITCH_STATE_COUNT, WRITE_BAUD_RATE_ADDRESS,
    WRITE_SWITCH_STATE_ADDRESS,
};
use rs485_switch::error::SwitchError;

#[test]
fn command_values_are_the_documented_constants() {
    assert_eq!(command_value(WriteSwitchState::Open), 0x01);
    assert_eq!(command_value(WriteSwitchState::Close), 0x02);
    assert_eq!(command_value(WriteSwitchState::Lock), 0x03);
    assert_eq!(command_value(WriteSwitchState::Unlock), 0x04);
}

#[test]
fn register_addresses_are_the_documented_constants() {
    assert_eq!(READ_SWITCH_STATE_ADDRESS, 0x0026);
    assert_eq!(READ_SWITCH_STATE_COUNT, 2);
    assert_eq!(WRITE_SWITCH_STATE_ADDRESS, 0x0101);
    assert_eq!(WRITE_BAUD_RATE_ADDRESS, 0x0150);
}

#[test]
fn decode_accepts_exactly_the_three_known_bytes() {
    assert_eq!(decode_state(0), Ok(ReadSwitchState::Close));
    assert_eq!(decode_state(1), Ok(ReadSwitchState::Open));
    assert_eq!(decode_state(2), Ok(ReadSwitchState::Lock));
}

#[test]
fn decode_refuses_every_other_byte() {
    for raw in 3..=255u8 {
        assert_eq!(decode_state(raw), Err(SwitchError::Decode { raw }));
    }
}

#[test]
fn baud_split_of_115200_is_high_then_low_word() {
    let registers = baud_rate_registers(115200);
    assert_eq!(registers, vec![0x0001, 0xC200]);
}

#[test]
fn baud_split_reassembles_for_sample_rates() {
    for rate in [0u32, 1, 4800, 9600, 115200, 0xFFFF, 0x1_0000, u32::MAX] {
        let registers = baud_rate_registers(rate);
        assert_eq!(registers.len(), 2);
        assert_eq!((registers[0] as u32) * 0x10000 + registers[1] as u32, rate);
    }
}
