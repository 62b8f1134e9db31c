//! The switch controller: a two-state session lifecycle (Disconnected,
//! Connected) composed with the register codec and the interpretation of
//! timeout-guarded bus transactions.
//!
//! The controller is the decision half of the protocol client. It never
//! touches the serial port itself: each operation is split into a request
//! builder, which checks the lifecycle state and produces the exact bus
//! request to submit, and a result interpreter, which maps whatever the
//! raced transaction came back with ([`BusOutcome`]) to the operation's
//! result. The unverified host performs the request over its Modbus RTU
//! session, races it against the configured deadline, and feeds the outcome
//! back; it holds the controller behind a mutual-exclusion lock so that no
//! transaction begins while another is outstanding.
//!
//! Policy for `connect` while already connected: reject with
//! `AlreadyConnected` before any I/O is attempted, so the live transport
//! handle is never replaced or leaked.

use vstd::prelude::*;

use crate::codec::READ_SWITCH_STATE_ADDRESS;
use crate::codec::READ_SWITCH_STATE_COUNT;
use crate::codec::ReadSwitchState;
use crate::codec::WRITE_BAUD_RATE_ADDRESS;
use crate::codec::WRITE_SWITCH_STATE_ADDRESS;
use crate::codec::WriteSwitchState;
use crate::codec::command_value;
use crate::codec::decode_state;
use crate::codec::spec_baud_high;
use crate::codec::spec_baud_low;
use crate::codec::spec_command_value;
use crate::codec::spec_decode_state;
use crate::codec::spec_state_byte;
use crate::config::ConfigV;
use crate::config::ModbusConfig;
use crate::error::SwitchError;

verus! {

/// I/O-level deadline on individual transport reads and writes, in
/// milliseconds. Shorter than any protocol-level deadline, so a dead link
/// cannot block the framing layer indefinitely on a partial frame.
pub const DEFAULT_SERIAL_TIMEOUT_MILLIS: u64 = 1_000;

/// The parameters of one live session.
#[derive(Debug, Clone, Copy, PartialEq, Eq, Structural)]
pub struct Session {
    /// Address of the device every transaction of this session targets.
    pub slave_id: u8,
    /// Protocol-level response deadline in milliseconds.
    pub timeout: u64,
}

/// What the host must do to open the serial transport for a new session.
#[derive(Debug, Clone, PartialEq, Eq)]
pub struct TransportPlan {
    /// Name of the serial port to open.
    pub port_name: String,
    /// Baud rate to open the port at.
    pub baud_rate: u32,
    /// I/O-level read/write deadline for the transport, in milliseconds.
    pub io_timeout_millis: u64,
}

/// The mathematical value of a transport plan.
#[verifier::ext_equal]
pub struct TransportPlanV {
    pub port_name: Seq<char>,
    pub baud_rate: u32,
    pub io_timeout_millis: u64,
}

impl View for TransportPlan {
    type V = TransportPlanV;

    open spec fn view(&self) -> TransportPlanV {
        TransportPlanV {
            port_name: self.port_name@,
            baud_rate: self.baud_rate,
            io_timeout_millis: self.io_timeout_millis,
        }
    }
}

/// One Modbus transaction to submit on the session.
#[derive(Debug, Clone, PartialEq, Eq)]
pub enum BusRequest {
    /// Read `count` holding registers starting at `address`.
    ReadHolding { address: u16, count: u16 },
    /// Write one value to the holding register at `address`.
    WriteSingle { address: u16, value: u16 },
    /// Write consecutive values starting at the holding register at
    /// `address`.
    WriteMultiple { address: u16, values: Vec<u16> },
}

/// The mathematical value of a bus request.
#[verifier::ext_equal]
pub enum BusRequestV {
    ReadHolding { address: u16, count: u16 },
    WriteSingle { address: u16, value: u16 },
    WriteMultiple { address: u16, values: Seq<u16> },
}

impl View for BusRequest {
    type V = BusRequestV;

    open spec fn view(&self) -> BusRequestV {
        match self {
            BusRequest::ReadHolding { address, count } => BusRequestV::ReadHolding {
                address: *address,
                count: *count,
            },
            BusRequest::WriteSingle { address, value } => BusRequestV::WriteSingle {
                address: *address,
                value: *value,
            },
            BusRequest::WriteMultiple { address, values } => BusRequestV::WriteMultiple {
                address: *address,
                values: values@,
            },
        }
    }
}

/// What one raced bus transaction came back with, as the host observed it.
///
/// The race has exactly these outcomes: the transaction completed with a
/// register payload, completed with a bare acknowledgement, completed in
/// failure (I/O error, malformed frame, or a Modbus exception response), or
/// the deadline elapsed first and the transaction was abandoned.
#[derive(Debug, Clone, PartialEq, Eq)]
pub enum BusOutcome {
    /// The transaction completed and returned these registers.
    Registers(Vec<u16>),
    /// The transaction completed with a bare acknowledgement.
    Ack,
    /// The transaction completed in failure.
    Failed,
    /// The deadline elapsed before the transaction completed.
    TimedOut,
}

/// The protocol client. Owns at most one live session; every operation is
/// valid only in the state its contract names.
pub struct SwitchController {
    /// The live session, if any. At most one session is ever live.
    pub session: Option<Session>,
}

impl SwitchController {
    /// Whether a session is live.
    pub open spec fn connected(&self) -> bool {
        self.session is Some
    }

    /// The parameters of the live session.
    pub open spec fn spec_session(&self) -> Session
        recommends
            self.connected(),
    {
        self.session->0
    }

    /// What `connect_begin` decides: the transport plan for a fresh
    /// session, or the sequencing error.
    pub open spec fn spec_connect_begin(&self, config: ConfigV) -> Result<
        TransportPlanV,
        SwitchError,
    > {
        if self.connected() {
            Err(SwitchError::AlreadyConnected)
        } else {
            Ok(
                TransportPlanV {
                    port_name: config.port_name,
                    baud_rate: config.baud_rate,
                    io_timeout_millis: DEFAULT_SERIAL_TIMEOUT_MILLIS,
                },
            )
        }
    }

    /// The controller after a successful transport open and session attach.
    pub open spec fn spec_connect_established(self, config: ConfigV) -> SwitchController {
        SwitchController {
            session: Some(Session { slave_id: config.slave_id, timeout: config.timeout }),
        }
    }

    /// What `disconnect` decides: the next state and the result.
    pub open spec fn spec_disconnect(self) -> (SwitchController, Result<(), SwitchError>) {
        if self.connected() {
            (SwitchController { session: None }, Ok(()))
        } else {
            (self, Err(SwitchError::NotConnected))
        }
    }

    /// What `operate_switch` decides for a command.
    pub open spec fn spec_operate_switch(&self, operation_state: WriteSwitchState) -> Result<
        BusRequestV,
        SwitchError,
    > {
        if self.connected() {
            Ok(
                BusRequestV::WriteSingle {
                    address: WRITE_SWITCH_STATE_ADDRESS,
                    value: spec_command_value(operation_state),
                },
            )
        } else {
            Err(SwitchError::NotConnected)
        }
    }

    /// What `get_switch_state` decides.
    pub open spec fn spec_get_switch_state(&self) -> Result<BusRequestV, SwitchError> {
        if self.connected() {
            Ok(
                BusRequestV::ReadHolding {
                    address: READ_SWITCH_STATE_ADDRESS,
                    count: READ_SWITCH_STATE_COUNT,
                },
            )
        } else {
            Err(SwitchError::NotConnected)
        }
    }

    /// What `set_baud_rate` decides for a rate.
    pub open spec fn spec_set_baud_rate(&self, baud_rate: u32) -> Result<
        BusRequestV,
        SwitchError,
    > {
        if self.connected() {
            Ok(
                BusRequestV::WriteMultiple {
                    address: WRITE_BAUD_RATE_ADDRESS,
                    values: seq![spec_baud_high(baud_rate), spec_baud_low(baud_rate)],
                },
            )
        } else {
            Err(SwitchError::NotConnected)
        }
    }

    /// A fresh controller with no session.
    pub fn new() -> (r: SwitchController)
        ensures
            !r.connected(),
    {
        SwitchController { session: None }
    }

    /// Whether a session is live.
    pub fn is_connected(&self) -> (r: bool)
        ensures
            r == self.connected(),
    {
        self.session.is_some()
    }

    /// The response deadline of the live session, in milliseconds.
    pub fn response_timeout_millis(&self) -> (r: Option<u64>)
        ensures
            self.connected() ==> r == Some(self.spec_session().timeout),
            !self.connected() ==> r is None,
    {
        match &self.session {
            Some(session) => Some(session.timeout),
            None => None,
        }
    }

    /// First half of `connect`: checks the lifecycle state and hands back
    /// the transport plan. No state changes until the host has opened the
    /// transport and called [`Self::connect_established`]; on a transport
    /// error the controller therefore remains disconnected.
    pub fn connect_begin(&self, config: &ModbusConfig) -> (r: Result<TransportPlan, SwitchError>)
        ensures
            match r {
                Ok(plan) => self.spec_connect_begin(config@) == Ok::<TransportPlanV, SwitchError>(
                    plan@,
                ),
                Err(e) => self.spec_connect_begin(config@) == Err::<TransportPlanV, SwitchError>(
                    e,
                ),
            },
            r is Ok <==> !self.connected(),
    {
        if self.session.is_some() {
            Err(SwitchError::AlreadyConnected)
        } else {
            Ok(
                TransportPlan {
                    port_name: config.port_name.clone(),
                    baud_rate: config.baud_rate,
                    io_timeout_millis: DEFAULT_SERIAL_TIMEOUT_MILLIS,
                },
            )
        }
    }

    /// Second half of `connect`: records the session the host attached
    /// after the transport open succeeded.
    pub fn connect_established(&mut self, config: &ModbusConfig) -> (r: Result<(), SwitchError>)
        ensures
            old(self).connected() ==> r == Err::<(), SwitchError>(SwitchError::AlreadyConnected)
                && *final(self) == *old(self),
            !old(self).connected() ==> r == Ok::<(), SwitchError>(()) && *final(self) == old(
                self,
            ).spec_connect_established(config@),
    {
        if self.session.is_some() {
            Err(SwitchError::AlreadyConnected)
        } else {
            self.session = Some(Session { slave_id: config.slave_id, timeout: config.timeout });
            Ok(())
        }
    }

    /// Tears the session down: Connected to Disconnected, or the
    /// sequencing error when there is nothing to tear down.
    pub fn disconnect(&mut self) -> (r: Result<(), SwitchError>)
        ensures
            (*final(self), r) == old(self).spec_disconnect(),
    {
        if self.session.is_some() {
            self.session = None;
            Ok(())
        } else {
            Err(SwitchError::NotConnected)
        }
    }

    /// Builds the single-register write that performs a command: the
    /// command's value at the fixed write address.
    pub fn operate_switch(&self, operation_state: WriteSwitchState) -> (r: Result<
        BusRequest,
        SwitchError,
    >)
        ensures
            match r {
                Ok(req) => self.spec_operate_switch(operation_state) == Ok::<
                    BusRequestV,
                    SwitchError,
                >(req@),
                Err(e) => self.spec_operate_switch(operation_state) == Err::<
                    BusRequestV,
                    SwitchError,
                >(e),
            },
            r is Ok <==> self.connected(),
    {
        if self.session.is_some() {
            Ok(
                BusRequest::WriteSingle {
                    address: WRITE_SWITCH_STATE_ADDRESS,
                    value: command_value(operation_state),
                },
            )
        } else {
            Err(SwitchError::NotConnected)
        }
    }

    /// Builds the two-register read of the switch state at the fixed read
    /// address.
    pub fn get_switch_state(&self) -> (r: Result<BusRequest, SwitchError>)
        ensures
            match r {
                Ok(req) => self.spec_get_switch_state() == Ok::<BusRequestV, SwitchError>(req@),
                Err(e) => self.spec_get_switch_state() == Err::<BusRequestV, SwitchError>(e),
            },
            r is Ok <==> self.connected(),
    {
        if self.session.is_some() {
            Ok(
                BusRequest::ReadHolding {
                    address: READ_SWITCH_STATE_ADDRESS,
                    count: READ_SWITCH_STATE_COUNT,
                },
            )
        } else {
            Err(SwitchError::NotConnected)
        }
    }

    /// Builds the two-word baud-rate write: high word then low word at the
    /// fixed baud-rate address.
    pub fn set_baud_rate(&self, baud_rate: u32) -> (r: Result<BusRequest, SwitchError>)
        ensures
            match r {
                Ok(req) => self.spec_set_baud_rate(baud_rate) == Ok::<BusRequestV, SwitchError>(
                    req@,
                ),
                Err(e) => self.spec_set_baud_rate(baud_rate) == Err::<BusRequestV, SwitchError>(e),
            },
            r is Ok <==> self.connected(),
    {
        if self.session.is_some() {
            let high: u16 = (baud_rate >> 16) as u16;
            let low: u16 = (baud_rate & 0xffff) as u16;
            Ok(BusRequest::WriteMultiple { address: WRITE_BAUD_RATE_ADDRESS, values: vec![high, low] })
        } else {
            Err(SwitchError::NotConnected)
        }
    }
}

/// Relies on chrono::Local::now for the current wall-clock time, rendered
/// through chrono's strftime formatting as
/// year-month-day hour:minute:second.milliseconds. The value depends on
/// the clock alone; nothing is claimed of it.
#[verifier::external_body]
fn local_timestamp() -> String {
    let now: chrono::DateTime<chrono::Local> = chrono::Local::now();
    now.format("%Y-%m-%d %H:%M:%S%.3f").to_string()
}

/// Interprets what a raced write transaction came back with. A completed
/// acknowledgement is success; a completed failure, or a register payload
/// where none belongs, is a protocol error under the operation's
/// description; an elapsed deadline is a timeout embedding the description
/// and the wall-clock time the abandonment was observed at.
pub fn resolve_write_outcome(outcome: &BusOutcome, description: &str) -> (r: Result<
    (),
    SwitchError,
>)
    ensures
        outcome is Ack ==> r == Ok::<(), SwitchError>(()),
        (outcome is Failed || outcome is Registers) ==> (r matches Err(
            SwitchError::Protocol { description: d },
        ) && d@ == description@),
        outcome is TimedOut ==> (r matches Err(
            SwitchError::Timeout { description: d, timestamp: _ },
        ) && d@ == description@),
{
    match outcome {
        BusOutcome::Ack => Ok(()),
        BusOutcome::Registers(_) => Err(
            SwitchError::Protocol { description: String::from_str(description) },
        ),
        BusOutcome::Failed => Err(
            SwitchError::Protocol { description: String::from_str(description) },
        ),
        BusOutcome::TimedOut => Err(
            SwitchError::Timeout {
                description: String::from_str(description),
                timestamp: local_timestamp(),
            },
        ),
    }
}

/// Interprets what a raced read transaction came back with: the register
/// payload on completion, and the same error mapping as the write side
/// otherwise.
pub fn resolve_read_outcome(outcome: BusOutcome, description: &str) -> (r: Result<
    Vec<u16>,
    SwitchError,
>)
    ensures
        outcome matches BusOutcome::Registers(regs) ==> (r matches Ok(out) && out@ == regs@),
        (outcome is Failed || outcome is Ack) ==> (r matches Err(
            SwitchError::Protocol { description: d },
        ) && d@ == description@),
        outcome is TimedOut ==> (r matches Err(
            SwitchError::Timeout { description: d, timestamp: _ },
        ) && d@ == description@),
{
    match outcome {
        BusOutcome::Registers(regs) => Ok(regs),
        BusOutcome::Ack => Err(
            SwitchError::Protocol { description: String::from_str(description) },
        ),
        BusOutcome::Failed => Err(
            SwitchError::Protocol { description: String::from_str(description) },
        ),
        BusOutcome::TimedOut => Err(
            SwitchError::Timeout {
                description: String::from_str(description),
                timestamp: local_timestamp(),
            },
        ),
    }
}

/// Finishes `operate_switch`: maps the raced write's outcome to the
/// operation's result.
pub fn operate_switch_result(outcome: &BusOutcome) -> (r: Result<(), SwitchError>)
    ensures
        outcome is Ack ==> r == Ok::<(), SwitchError>(()),
        (outcome is Failed || outcome is Registers) ==> (r matches Err(
            SwitchError::Protocol { description: d },
        ) && d@ == "cannot operate the switch"@),
        outcome is TimedOut ==> (r matches Err(
            SwitchError::Timeout { description: d, timestamp: _ },
        ) && d@ == "cannot operate the switch"@),
{
    resolve_write_outcome(outcome, "cannot operate the switch")
}

/// Finishes `set_baud_rate`: maps the raced write's outcome to the
/// operation's result.
pub fn set_baud_rate_result(outcome: &BusOutcome) -> (r: Result<(), SwitchError>)
    ensures
        outcome is Ack ==> r == Ok::<(), SwitchError>(()),
        (outcome is Failed || outcome is Registers) ==> (r matches Err(
            SwitchError::Protocol { description: d },
        ) && d@ == "cannot change the baud rate"@),
        outcome is TimedOut ==> (r matches Err(
            SwitchError::Timeout { description: d, timestamp: _ },
        ) && d@ == "cannot change the baud rate"@),
{
    resolve_write_outcome(outcome, "cannot change the baud rate")
}

/// Finishes `get_switch_state`: takes what the raced two-register read
/// came back with, checks that exactly two registers returned, and decodes
/// the low byte of the second one. A byte outside the closed mapping is a
/// decode failure carrying the byte, never a guess.
pub fn get_switch_state_result(outcome: BusOutcome) -> (r: Result<ReadSwitchState, SwitchError>)
    ensures
        outcome matches BusOutcome::Registers(regs) ==> (if regs@.len() == 2 {
            r == (match spec_decode_state(spec_state_byte(regs@)) {
                Some(state) => Result::<ReadSwitchState, SwitchError>::Ok(state),
                None => Result::<ReadSwitchState, SwitchError>::Err(
                    SwitchError::Decode { raw: spec_state_byte(regs@) },
                ),
            })
        } else {
            r matches Err(SwitchError::Protocol { description: d }) && d@
                == "the state readback held the wrong number of registers"@
        }),
        (outcome is Failed || outcome is Ack) ==> (r matches Err(
            SwitchError::Protocol { description: d },
        ) && d@ == "cannot read the switch state"@),
        outcome is TimedOut ==> (r matches Err(
            SwitchError::Timeout { description: d, timestamp: _ },
        ) && d@ == "cannot read the switch state"@),
{
    let registers = match resolve_read_outcome(outcome, "cannot read the switch state") {
        Ok(registers) => registers,
        Err(e) => {
            return Err(e);
        },
    };
    if registers.len() != 2 {
        return Err(
            SwitchError::Protocol {
                description: String::from_str(
                    "the state readback held the wrong number of registers",
                ),
            },
        );
    }
    let word: u16 = registers[1];
    let raw: u8 = (word & 0x00ff) as u8;
    decode_state(raw)
}

/// Law: every command travels the write path as its exact documented
/// constant at the fixed write address; Open, Close, Lock and Unlock
/// encode as 0x01, 0x02, 0x03 and 0x04.
pub proof fn lemma_command_write_path(c: SwitchController, operation_state: WriteSwitchState)
    requires
        c.connected(),
    ensures
        c.spec_operate_switch(operation_state) == Ok::<BusRequestV, SwitchError>(
            BusRequestV::WriteSingle {
                address: WRITE_SWITCH_STATE_ADDRESS,
                value: spec_command_value(operation_state),
            },
        ),
        spec_command_value(WriteSwitchState::Open) == 0x01,
        spec_command_value(WriteSwitchState::Close) == 0x02,
        spec_command_value(WriteSwitchState::Lock) == 0x03,
        spec_command_value(WriteSwitchState::Unlock) == 0x04,
{
}

/// Law: connecting and then immediately disconnecting succeeds and leaves
/// the controller disconnected, so a state read straight after fails with
/// `NotConnected`.
pub proof fn lemma_read_state_after_connect_disconnect(c: SwitchController, config: ConfigV)
    requires
        !c.connected(),
    ensures
        ({
            let connected = c.spec_connect_established(config);
            let after = connected.spec_disconnect().0;
            let disconnect_result = connected.spec_disconnect().1;
            &&& disconnect_result == Ok::<(), SwitchError>(())
            &&& !after.connected()
            &&& after.spec_get_switch_state() == Err::<BusRequestV, SwitchError>(
                SwitchError::NotConnected,
            )
        }),
{
}

/// Law: a second connect while a session is live is rejected with
/// `AlreadyConnected` before any transport is opened, so the live
/// session's handle is never replaced or leaked.
pub proof fn lemma_second_connect_rejected(c: SwitchController, config: ConfigV)
    requires
        c.connected(),
    ensures
        c.spec_connect_begin(config) == Err::<TransportPlanV, SwitchError>(
            SwitchError::AlreadyConnected,
        ),
{
}

} // verus!
