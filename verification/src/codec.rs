//! Switch register codec: the register map of the device and the mapping
//! between switch semantics and 16-bit register values.
//!
//! Write path: each command is a fixed value written to the single command
//! register. Read path: the state is the low byte of the second of two
//! holding registers read from the state address; bytes outside the closed
//! {0, 1, 2} mapping are a decode failure, never a guess. The baud-rate
//! write splits the 32-bit rate into high and low words, high word first.

use vstd::prelude::*;

use crate::error::SwitchError;

verus! {

/// Holding-register address the switch state is read from (two registers).
pub const READ_SWITCH_STATE_ADDRESS: u16 = 0x0026;

/// Holding-register address a command value is written to (one register).
pub const WRITE_SWITCH_STATE_ADDRESS: u16 = 0x0101;

/// Holding-register address of the two-word baud-rate write.
pub const WRITE_BAUD_RATE_ADDRESS: u16 = 0x0150;

/// Number of holding registers read for one state readback.
pub const READ_SWITCH_STATE_COUNT: u16 = 2;

/// The state the switch reports: contacts open, contacts closed, or locked.
#[derive(Debug, Clone, Copy, PartialEq, Eq, Structural)]
pub enum ReadSwitchState {
    Close,
    Open,
    Lock,
}

/// The commands the switch accepts.
#[derive(Debug, Clone, Copy, PartialEq, Eq, Structural)]
pub enum WriteSwitchState {
    Open,
    Close,
    Lock,
    Unlock,
}

/// The register value encoding a command.
pub open spec fn spec_command_value(command: WriteSwitchState) -> u16 {
    match command {
        WriteSwitchState::Open => 0x01,
        WriteSwitchState::Close => 0x02,
        WriteSwitchState::Lock => 0x03,
        WriteSwitchState::Unlock => 0x04,
    }
}

/// Encodes a command as the value written to the command register.
pub fn command_value(command: WriteSwitchState) -> (r: u16)
    ensures
        r == spec_command_value(command),
{
    match command {
        WriteSwitchState::Open => 0x01,
        WriteSwitchState::Close => 0x02,
        WriteSwitchState::Lock => 0x03,
        WriteSwitchState::Unlock => 0x04,
    }
}

/// The closed decode mapping of a raw state byte: {0, 1, 2} and nothing else.
pub open spec fn spec_decode_state(raw: u8) -> Option<ReadSwitchState> {
    if raw == 0 {
        Some(ReadSwitchState::Close)
    } else if raw == 1 {
        Some(ReadSwitchState::Open)
    } else if raw == 2 {
        Some(ReadSwitchState::Lock)
    } else {
        None
    }
}

/// Decodes a raw state byte; any byte outside the known mapping is a
/// `Decode` failure carrying the offending byte.
pub fn decode_state(raw: u8) -> (r: Result<ReadSwitchState, SwitchError>)
    ensures
        r == (match spec_decode_state(raw) {
            Some(state) => Result::<ReadSwitchState, SwitchError>::Ok(state),
            None => Result::<ReadSwitchState, SwitchError>::Err(SwitchError::Decode { raw }),
        }),
{
    if raw == 0 {
        Ok(ReadSwitchState::Close)
    } else if raw == 1 {
        Ok(ReadSwitchState::Open)
    } else if raw == 2 {
        Ok(ReadSwitchState::Lock)
    } else {
        Err(SwitchError::Decode { raw })
    }
}

/// The raw state byte of a two-register readback: the low byte of the
/// second register.
pub open spec fn spec_state_byte(registers: Seq<u16>) -> u8
    recommends
        registers.len() == 2,
{
    (registers[1] & 0x00ff) as u8
}

/// High word of the two-word baud-rate write.
pub open spec fn spec_baud_high(rate: u32) -> u16 {
    (rate >> 16) as u16
}

/// Low word of the two-word baud-rate write.
pub open spec fn spec_baud_low(rate: u32) -> u16 {
    (rate & 0xffff) as u16
}

/// Splits a baud rate into the register pair written to the baud-rate
/// address: high word first, then low word.
pub fn baud_rate_registers(rate: u32) -> (r: Vec<u16>)
    ensures
        r@ =~= seq![spec_baud_high(rate), spec_baud_low(rate)],
{
    let high: u16 = (rate >> 16) as u16;
    let low: u16 = (rate & 0xffff) as u16;
    vec![high, low]
}

/// The two baud-rate words lose nothing: reassembling high and low word
/// gives back the rate.
pub proof fn lemma_baud_split_reassembles(rate: u32)
    ensures
        spec_baud_high(rate) as u32 * 0x10000 + spec_baud_low(rate) as u32 == rate,
{
    assert((rate >> 16) as u16 as u32 * 0x10000 + (rate & 0xffff) as u16 as u32 == rate)
        by (bit_vector);
}

/// Decoding is exactly inverse to the raw bytes the device documents:
/// 0, 1, 2 give Close, Open, Lock, and every other byte is refused.
pub proof fn lemma_decode_state_exact(raw: u8)
    ensures
        (spec_decode_state(raw) == Some(ReadSwitchState::Close)) <==> (raw == 0),
        (spec_decode_state(raw) == Some(ReadSwitchState::Open)) <==> (raw == 1),
        (spec_decode_state(raw) == Some(ReadSwitchState::Lock)) <==> (raw == 2),
        (spec_decode_state(raw) is None) <==> (raw >= 3),
{
}

} // verus!
