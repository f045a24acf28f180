//! One request and its reply: which command to send for each operation of the
//! bench, and what a received reply means for the operation that awaits it.
//!
//! The protocol has no pipelining. A reply belongs to the request sent just
//! before it, and it is accepted only if it names the same command and the
//! same battery.

use vstd::prelude::*;
use crate::bench::Battery;
use crate::bench::BatteryState;
use crate::bench::Bench;
use crate::bench::lowest_free_id;
use crate::command::Command;
use crate::frame::decoded;
use crate::frame::encoded;
use crate::frame::lemma_decode_inverts_encode;
use crate::frame::BatteryCommand;
use crate::frame::FrameContent;
use crate::frame::FrameError;
use crate::payload::payload_refusal;
use crate::payload::telemetry_of;
use crate::payload::PayloadError;
use crate::payload::TelemetryReading;
use crate::payload::STATUS_PAYLOAD_LEN;
use crate::payload::TELEMETRY_PAYLOAD_LEN;

verus! {

/// The number of filler bytes that a `RequestData` request carries.
pub const DATA_REQUEST_FILLER_LEN: usize = 12;

/// What went wrong on the serial line.
#[derive(Debug, Clone, Copy, PartialEq, Eq, Structural)]
pub enum TransportError {
    /// The port could not be opened.
    OpenFailed,
    /// The frame could not be written.
    WriteFailed,
    /// Reading the reply failed for another reason than a timeout.
    ReadFailed,
}

/// Why an operation of the bench failed.
#[derive(Debug, Clone, Copy, PartialEq, Eq, Structural)]
pub enum ProtocolError {
    /// No reply was obtained.
    Transport(TransportError),
    /// The reply is not a frame.
    Frame(FrameError),
    /// The reply is a frame for the request, but its payload cannot be read.
    Payload(PayloadError),
    /// The reply is a frame, but not one for the request that was sent.
    ResponseMismatch {
        expected_command: Command,
        expected_battery_id: u8,
        actual_command: Command,
        actual_battery_id: u8,
    },
}

/// The command that puts a battery into `state`.
pub open spec fn state_command(state: BatteryState) -> Command {
    match state {
        BatteryState::Standby => Command::SetStandBy,
        BatteryState::Charge => Command::SetCharge,
        BatteryState::Discharge => Command::SetDischarge,
    }
}

/// The request that puts the battery `battery_id` into `state`.
pub open spec fn state_request(battery_id: u8, state: BatteryState) -> FrameContent {
    FrameContent { command: state_command(state), battery_id, payload: Seq::empty() }
}

/// The request that offers the id `candidate` to a new battery.
pub open spec fn assignment_request(candidate: u8) -> FrameContent {
    FrameContent { command: Command::AssignId, battery_id: candidate, payload: Seq::empty() }
}

/// The request that asks the battery `battery_id` for a telemetry sample.
pub open spec fn telemetry_request(battery_id: u8) -> FrameContent {
    FrameContent {
        command: Command::RequestData,
        battery_id,
        payload: Seq::new(DATA_REQUEST_FILLER_LEN as nat, |i: int| 0u8),
    }
}

/// The reply to `request` that `response` holds: the decoded frame, if it is
/// one and names the command and the battery of the request.
pub open spec fn matched_reply(request: FrameContent, response: Seq<u8>) -> Result<
    FrameContent,
    ProtocolError,
> {
    match decoded(response) {
        Err(error) => Err(ProtocolError::Frame(error)),
        Ok(reply) => if reply.command == request.command && reply.battery_id
            == request.battery_id {
            Ok(reply)
        } else {
            Err(
                ProtocolError::ResponseMismatch {
                    expected_command: request.command,
                    expected_battery_id: request.battery_id,
                    actual_command: reply.command,
                    actual_battery_id: reply.battery_id,
                },
            )
        },
    }
}

/// The result of a state change whose request was `request` and whose reply
/// was `response`.
pub open spec fn state_change_result(request: FrameContent, response: Seq<u8>) -> Result<
    (),
    ProtocolError,
> {
    match matched_reply(request, response) {
        Err(error) => Err(error),
        Ok(_) => Ok(()),
    }
}

/// The result of an identity assignment: the id that the device confirmed in
/// the one payload byte of its reply.
pub open spec fn assignment_result(request: FrameContent, response: Seq<u8>) -> Result<
    u8,
    ProtocolError,
> {
    match matched_reply(request, response) {
        Err(error) => Err(error),
        Ok(reply) => match payload_refusal(
            Command::AssignId,
            STATUS_PAYLOAD_LEN,
            reply.command,
            reply.payload.len(),
        ) {
            Some(error) => Err(ProtocolError::Payload(error)),
            None => Ok(reply.payload[0]),
        },
    }
}

/// The result of a telemetry request: the sample that the reply carries.
pub open spec fn telemetry_result(request: FrameContent, response: Seq<u8>) -> Result<
    TelemetryReading,
    ProtocolError,
> {
    match matched_reply(request, response) {
        Err(error) => Err(error),
        Ok(reply) => match payload_refusal(
            Command::RequestData,
            TELEMETRY_PAYLOAD_LEN,
            reply.command,
            reply.payload.len(),
        ) {
            Some(error) => Err(ProtocolError::Payload(error)),
            None => Ok(telemetry_of(reply.battery_id, reply.payload)),
        },
    }
}

/// Chooses the command that puts a battery into `state`.
pub fn command_for_state(state: BatteryState) -> (command: Command)
    ensures
        command == state_command(state),
{
    match state {
        BatteryState::Standby => Command::SetStandBy,
        BatteryState::Charge => Command::SetCharge,
        BatteryState::Discharge => Command::SetDischarge,
    }
}

/// Builds the request that puts `battery` into `new_state`.
pub fn set_state_request(battery: &Battery, new_state: BatteryState) -> (request: BatteryCommand)
    ensures
        request@ == state_request(battery.id, new_state),
{
    BatteryCommand {
        command: command_for_state(new_state),
        battery_id: battery.id,
        payload: Vec::new(),
    }
}

/// Builds the request that offers the id `candidate` to a new battery.
pub fn offer_request(candidate: u8) -> (request: BatteryCommand)
    ensures
        request@ == assignment_request(candidate),
{
    BatteryCommand { command: Command::AssignId, battery_id: candidate, payload: Vec::new() }
}

/// Builds the request that offers the lowest free id of `bench` to a new
/// battery.
pub fn assign_id_request(bench: &Bench) -> (request: BatteryCommand)
    ensures
        lowest_free_id(bench@.batteries) == Some(request@.battery_id),
        request@ == assignment_request(request@.battery_id),
{
    offer_request(bench.next_free_id())
}

/// Builds the request that asks `battery` for a telemetry sample.
pub fn data_request_for(battery: &Battery) -> (request: BatteryCommand)
    ensures
        request@ == telemetry_request(battery.id),
{
    let mut payload: Vec<u8> = Vec::new();
    let mut count: usize = 0;
    while count < DATA_REQUEST_FILLER_LEN
        invariant
            count <= DATA_REQUEST_FILLER_LEN,
            payload@.len() == count,
            forall|i: int| 0 <= i < count ==> payload@[i] == 0u8,
        decreases DATA_REQUEST_FILLER_LEN - count,
    {
        payload.push(0);
        count += 1;
    }
    proof {
        assert(payload@ =~= telemetry_request(battery.id).payload);
    }
    BatteryCommand { command: Command::RequestData, battery_id: battery.id, payload }
}

/// Decodes `response` and accepts it as the reply to `request` if it names
/// the same command and the same battery.
pub fn match_response(request: &BatteryCommand, response: &[u8]) -> (result: Result<
    BatteryCommand,
    ProtocolError,
>)
    ensures
        match result {
            Ok(reply) => matched_reply(request@, response@) == Ok::<FrameContent, ProtocolError>(
                reply@,
            ),
            Err(error) => matched_reply(request@, response@) == Err::<FrameContent, ProtocolError>(
                error,
            ),
        },
{
    match BatteryCommand::decode(response) {
        Err(error) => Err(ProtocolError::Frame(error)),
        Ok(reply) => {
            if reply.command == request.command && reply.battery_id == request.battery_id {
                Ok(reply)
            } else {
                Err(
                    ProtocolError::ResponseMismatch {
                        expected_command: request.command,
                        expected_battery_id: request.battery_id,
                        actual_command: reply.command,
                        actual_battery_id: reply.battery_id,
                    },
                )
            }
        },
    }
}

/// Judges the reply to a state change.
pub fn set_state_outcome(request: &BatteryCommand, response: &[u8]) -> (result: Result<
    (),
    ProtocolError,
>)
    ensures
        result == state_change_result(request@, response@),
{
    match match_response(request, response) {
        Err(error) => Err(error),
        Ok(_) => Ok(()),
    }
}

/// Judges the reply to an identity assignment and reads the confirmed id.
pub fn assign_id_outcome(request: &BatteryCommand, response: &[u8]) -> (result: Result<
    u8,
    ProtocolError,
>)
    ensures
        result == assignment_result(request@, response@),
{
    match match_response(request, response) {
        Err(error) => Err(error),
        Ok(reply) => match reply.parse_assign_id(reply.payload.as_slice()) {
            Err(error) => Err(ProtocolError::Payload(error)),
            Ok(id) => Ok(id),
        },
    }
}

/// Judges the reply to a telemetry request and reads the sample.
pub fn data_request_outcome(request: &BatteryCommand, response: &[u8]) -> (result: Result<
    TelemetryReading,
    ProtocolError,
>)
    ensures
        result == telemetry_result(request@, response@),
{
    match match_response(request, response) {
        Err(error) => Err(error),
        Ok(reply) => match reply.parse_request_data(reply.payload.as_slice()) {
            Err(error) => Err(ProtocolError::Payload(error)),
            Ok(reading) => Ok(reading),
        },
    }
}

/// A well-formed reply that names another battery than the request is
/// refused as a mismatch, also where it names the right command. The same
/// holds of a reply that names another command. The error tells what was
/// expected and what arrived.
pub proof fn lemma_foreign_reply_is_mismatch(request: FrameContent, reply: FrameContent)
    requires
        reply.battery_id != request.battery_id || reply.command != request.command,
    ensures
        matched_reply(request, encoded(reply)) == Err::<FrameContent, ProtocolError>(
            ProtocolError::ResponseMismatch {
                expected_command: request.command,
                expected_battery_id: request.battery_id,
                actual_command: reply.command,
                actual_battery_id: reply.battery_id,
            },
        ),
        state_change_result(request, encoded(reply)) == Err::<(), ProtocolError>(
            ProtocolError::ResponseMismatch {
                expected_command: request.command,
                expected_battery_id: request.battery_id,
                actual_command: reply.command,
                actual_battery_id: reply.battery_id,
            },
        ),
{
    lemma_decode_inverts_encode(reply);
}

/// A well-formed reply that names the command and the battery of the request
/// is accepted, and a state change that gets such a reply has succeeded.
pub proof fn lemma_own_reply_is_matched(request: FrameContent, reply: FrameContent)
    requires
        reply.battery_id == request.battery_id,
        reply.command == request.command,
    ensures
        matched_reply(request, encoded(reply)) == Ok::<FrameContent, ProtocolError>(reply),
        state_change_result(request, encoded(reply)) == Ok::<(), ProtocolError>(()),
{
    lemma_decode_inverts_encode(reply);
}

/// A byte sequence that is no frame fails every operation with the error of
/// the frame decoder.
pub proof fn lemma_broken_reply_fails(request: FrameContent, response: Seq<u8>)
    requires
        decoded(response) is Err,
    ensures
        matched_reply(request, response) == Err::<FrameContent, ProtocolError>(
            ProtocolError::Frame(decoded(response)->Err_0),
        ),
        state_change_result(request, response) is Err,
        assignment_result(request, response) is Err,
        telemetry_result(request, response) is Err,
{
}

} // verus!
