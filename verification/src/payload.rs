//! Payload interpretation: what the payload bytes of a reply mean for each
//! command that carries one.
//!
//! Every parser is a method of the [`BatteryCommand`] that the payload belongs
//! to and refuses to read a payload under another command than its own.

use vstd::prelude::*;
use crate::command::Command;
use crate::frame::BatteryCommand;

verus! {

/// The payload length of a `Ping`, `AssignId` or `RequestCompletion` reply.
pub const STATUS_PAYLOAD_LEN: usize = 1;

/// The payload length of a `RequestData` reply: five 16-bit fields and one
/// trailing byte that carries nothing.
pub const TELEMETRY_PAYLOAD_LEN: usize = 11;

/// Why a payload could not be interpreted.
#[derive(Debug, Clone, Copy, PartialEq, Eq, Structural)]
pub enum PayloadError {
    /// The payload does not have the length that the command fixes.
    WrongLength { expected: usize, actual: usize },
    /// The parser for `wanted` was invoked on a command of kind `found`.
    WrongCommandForPayload { wanted: Command, found: Command },
}

/// The payload of a `Ping` reply.
#[derive(Debug, Clone, Copy, PartialEq, Eq, Structural)]
pub struct PingStatus {
    pub bench_status: u8,
}

/// The payload of a `RequestCompletion` reply. Both bitfields are read from
/// the one status byte of the payload.
#[derive(Debug, Clone, Copy, PartialEq, Eq, Structural)]
pub struct CompletionStatus {
    pub bench_status: u8,
    pub experiment_status: u8,
}

/// One telemetry sample of one battery.
///
/// The three temperatures are kept as they travel, in hundredths of a degree,
/// so that no precision is lost; [`whole_degrees`] gives the degrees without
/// the fraction. Load, voltage and current are raw device units.
#[derive(Debug, Clone, Copy, PartialEq, Eq, Structural)]
pub struct TelemetryReading {
    pub battery_id: u8,
    pub battery_temperature: i16,
    pub bench_temperature_mosfet: i16,
    pub bench_temperature_resistor: i16,
    pub load: i32,
    pub voltage: i32,
    pub current: i32,
}

/// The signed 16-bit integer whose big-endian bytes are `high` and `low`.
pub open spec fn be_i16(high: u8, low: u8) -> int {
    let unsigned = high as int * 256 + low as int;
    if unsigned >= 32768 {
        unsigned - 65536
    } else {
        unsigned
    }
}

/// A value in hundredths, cut down to whole units: rounded toward zero.
pub open spec fn truncated_hundredths(hundredths: int) -> int {
    if hundredths >= 0 {
        hundredths / 100
    } else {
        -((-hundredths) / 100)
    }
}

/// The sample that an 11-byte `RequestData` payload carries.
///
/// Field order, fixed here once: battery temperature, mosfet temperature,
/// resistor temperature, load, current, each a big-endian signed 16-bit
/// integer. The voltage is read from the same field as the load. The
/// eleventh byte is not read.
pub open spec fn telemetry_of(battery_id: u8, payload: Seq<u8>) -> TelemetryReading
    recommends
        payload.len() == TELEMETRY_PAYLOAD_LEN,
{
    TelemetryReading {
        battery_id,
        battery_temperature: be_i16(payload[0], payload[1]) as i16,
        bench_temperature_mosfet: be_i16(payload[2], payload[3]) as i16,
        bench_temperature_resistor: be_i16(payload[4], payload[5]) as i16,
        load: be_i16(payload[6], payload[7]) as i32,
        voltage: be_i16(payload[6], payload[7]) as i32,
        current: be_i16(payload[8], payload[9]) as i32,
    }
}

/// What a parser returns before it looks at the bytes: the error owed for a
/// payload of `len` bytes read under a command of kind `actual` by the parser
/// for `expected` with its fixed length `expected_len`, or `None` where the
/// payload is to be read.
pub open spec fn payload_refusal(
    expected: Command,
    expected_len: usize,
    actual: Command,
    len: nat,
) -> Option<PayloadError> {
    if actual != expected {
        Some(PayloadError::WrongCommandForPayload { wanted: expected, found: actual })
    } else if len != expected_len {
        Some(PayloadError::WrongLength { expected: expected_len, actual: len as usize })
    } else {
        None
    }
}

/// Reads a big-endian signed 16-bit integer from its two bytes.
pub fn read_be_i16(high: u8, low: u8) -> (value: i16)
    ensures
        value == be_i16(high, low),
{
    let unsigned: i32 = (high as i32) * 256 + (low as i32);
    if unsigned >= 32768 {
        (unsigned - 65536) as i16
    } else {
        unsigned as i16
    }
}

/// Whole degrees of a temperature given in hundredths, rounded toward zero.
pub fn whole_degrees(hundredths: i16) -> (degrees: i32)
    ensures
        degrees == truncated_hundredths(hundredths as int),
        -327 <= degrees <= 327,
{
    let wide: i32 = hundredths as i32;
    if wide >= 0 {
        wide / 100
    } else {
        -((-wide) / 100)
    }
}

impl BatteryCommand {
    /// The error owed by the parser for `expected`, if any.
    fn refuse_payload(&self, expected: Command, expected_len: usize, payload: &[u8]) -> (refusal:
        Option<PayloadError>)
        ensures
            refusal == payload_refusal(expected, expected_len, self.command, payload@.len()),
    {
        if self.command != expected {
            Some(PayloadError::WrongCommandForPayload { wanted: expected, found: self.command })
        } else if payload.len() != expected_len {
            Some(PayloadError::WrongLength { expected: expected_len, actual: payload.len() })
        } else {
            None
        }
    }

    /// Reads the payload of a `Ping` reply: one status byte.
    pub fn parse_ping_payload(&self, payload: &[u8]) -> (result: Result<PingStatus, PayloadError>)
        ensures
            result == match payload_refusal(
                Command::Ping,
                STATUS_PAYLOAD_LEN,
                self.command,
                payload@.len(),
            ) {
                Some(error) => Err::<PingStatus, PayloadError>(error),
                None => Ok(PingStatus { bench_status: payload@[0] }),
            },
    {
        match self.refuse_payload(Command::Ping, STATUS_PAYLOAD_LEN, payload) {
            Some(error) => Err(error),
            None => Ok(PingStatus { bench_status: payload[0] }),
        }
    }

    /// Reads the payload of an `AssignId` reply: the id that the device
    /// confirmed.
    pub fn parse_assign_id(&self, payload: &[u8]) -> (result: Result<u8, PayloadError>)
        ensures
            result == match payload_refusal(
                Command::AssignId,
                STATUS_PAYLOAD_LEN,
                self.command,
                payload@.len(),
            ) {
                Some(error) => Err::<u8, PayloadError>(error),
                None => Ok(payload@[0]),
            },
    {
        match self.refuse_payload(Command::AssignId, STATUS_PAYLOAD_LEN, payload) {
            Some(error) => Err(error),
            None => Ok(payload[0]),
        }
    }

    /// Reads the payload of a `RequestData` reply into a telemetry sample of
    /// the battery that this command is addressed to.
    pub fn parse_request_data(&self, payload: &[u8]) -> (result: Result<
        TelemetryReading,
        PayloadError,
    >)
        ensures
            result == match payload_refusal(
                Command::RequestData,
                TELEMETRY_PAYLOAD_LEN,
                self.command,
                payload@.len(),
            ) {
                Some(error) => Err::<TelemetryReading, PayloadError>(error),
                None => Ok(telemetry_of(self.battery_id, payload@)),
            },
    {
        match self.refuse_payload(Command::RequestData, TELEMETRY_PAYLOAD_LEN, payload) {
            Some(error) => Err(error),
            None => {
                let battery_temperature = read_be_i16(payload[0], payload[1]);
                let bench_temperature_mosfet = read_be_i16(payload[2], payload[3]);
                let bench_temperature_resistor = read_be_i16(payload[4], payload[5]);
                let load = read_be_i16(payload[6], payload[7]) as i32;
                let voltage = read_be_i16(payload[6], payload[7]) as i32;
                let current = read_be_i16(payload[8], payload[9]) as i32;
                Ok(
                    TelemetryReading {
                        battery_id: self.battery_id,
                        battery_temperature,
                        bench_temperature_mosfet,
                        bench_temperature_resistor,
                        load,
                        voltage,
                        current,
                    },
                )
            },
        }
    }

    /// Reads the payload of a `RequestCompletion` reply: one byte that gives
    /// both status fields.
    pub fn parse_completion(&self, payload: &[u8]) -> (result: Result<
        CompletionStatus,
        PayloadError,
    >)
        ensures
            result == match payload_refusal(
                Command::RequestCompletion,
                STATUS_PAYLOAD_LEN,
                self.command,
                payload@.len(),
            ) {
                Some(error) => Err::<CompletionStatus, PayloadError>(error),
                None => Ok(
                    CompletionStatus { bench_status: payload@[0], experiment_status: payload@[0] },
                ),
            },
    {
        match self.refuse_payload(Command::RequestCompletion, STATUS_PAYLOAD_LEN, payload) {
            Some(error) => Err(error),
            None => {
                let flags = payload[0];
                Ok(CompletionStatus { bench_status: flags, experiment_status: flags })
            },
        }
    }
}

} // verus!
