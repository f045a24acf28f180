//! The rules of the serial line: its settings, and what to do after each
//! thing that can happen while a frame is sent and its reply is read.
//!
//! The line itself is driven from outside this library. One request is in
//! flight at a time: the frame is written in one piece, then exactly as many
//! bytes are read as the command's reply has. A read that times out is tried
//! again after a pause, without limit; any other failure ends the exchange.

use vstd::prelude::*;
use crate::command::Command;
use crate::exchange::TransportError;
use crate::frame::BatteryCommand;
use crate::frame::FrameContent;
use crate::frame::DELIMITER;

verus! {

/// The speed of the serial line, in bits per second.
pub const BAUD_RATE: u32 = 9600;

/// How long one read waits for bytes, in milliseconds.
pub const READ_TIMEOUT_MS: u64 = 100;

/// How long to pause after a read that timed out, in milliseconds.
pub const RETRY_BACKOFF_MS: u64 = 333;

/// The battery id that an ad-hoc command is addressed to.
pub const PROBE_BATTERY_ID: u8 = 0x02;

/// The one payload byte of an ad-hoc command.
pub const PROBE_PAYLOAD: u8 = 0x3B;

/// What happened on the serial line.
#[derive(Debug, Clone, Copy, PartialEq, Eq, Structural)]
pub enum LineEvent {
    /// The port is open.
    Opened,
    /// The port could not be opened.
    OpenRefused,
    /// The whole frame has been written.
    Written,
    /// Writing the frame failed.
    WriteRefused,
    /// All bytes of the reply have been read.
    ReadComplete,
    /// The read ran into its timeout before all bytes had come.
    ReadTimedOut,
    /// The read failed for another reason.
    ReadRefused,
}

/// What to do next on the serial line.
#[derive(Debug, Clone, Copy, PartialEq, Eq, Structural)]
pub enum LineAction {
    /// Write the frame.
    Write,
    /// Read the reply.
    Read,
    /// Pause for `millis` milliseconds, then read again.
    PauseThenRead { millis: u64 },
    /// Hand the bytes read to whoever awaits the reply.
    Deliver,
    /// Give the exchange up with this error.
    GiveUp(TransportError),
}

/// The action that follows `event`.
pub open spec fn action_after(event: LineEvent) -> LineAction {
    match event {
        LineEvent::Opened => LineAction::Write,
        LineEvent::OpenRefused => LineAction::GiveUp(TransportError::OpenFailed),
        LineEvent::Written => LineAction::Read,
        LineEvent::WriteRefused => LineAction::GiveUp(TransportError::WriteFailed),
        LineEvent::ReadComplete => LineAction::Deliver,
        LineEvent::ReadTimedOut => LineAction::PauseThenRead { millis: RETRY_BACKOFF_MS },
        LineEvent::ReadRefused => LineAction::GiveUp(TransportError::ReadFailed),
    }
}

/// The ad-hoc request for `command`.
pub open spec fn probe_request(command: Command) -> FrameContent {
    FrameContent { command, battery_id: PROBE_BATTERY_ID, payload: seq![PROBE_PAYLOAD] }
}

/// Whether `response` can be the start of a frame: at least three bytes, the
/// first of them the delimiter.
pub open spec fn plausible_response(response: Seq<u8>) -> bool {
    response.len() >= 3 && response[0] == DELIMITER
}

/// Decides what to do after `event`.
pub fn next_action(event: LineEvent) -> (action: LineAction)
    ensures
        action == action_after(event),
{
    match event {
        LineEvent::Opened => LineAction::Write,
        LineEvent::OpenRefused => LineAction::GiveUp(TransportError::OpenFailed),
        LineEvent::Written => LineAction::Read,
        LineEvent::WriteRefused => LineAction::GiveUp(TransportError::WriteFailed),
        LineEvent::ReadComplete => LineAction::Deliver,
        LineEvent::ReadTimedOut => LineAction::PauseThenRead { millis: RETRY_BACKOFF_MS },
        LineEvent::ReadRefused => LineAction::GiveUp(TransportError::ReadFailed),
    }
}

/// Builds the ad-hoc request for `command`.
pub fn probe_command(command: Command) -> (request: BatteryCommand)
    ensures
        request@ == probe_request(command),
{
    let mut payload: Vec<u8> = Vec::new();
    payload.push(PROBE_PAYLOAD);
    BatteryCommand { command, battery_id: PROBE_BATTERY_ID, payload }
}

/// Tells whether the bytes read for an ad-hoc command look like a frame.
pub fn is_plausible_response(response: &[u8]) -> (plausible: bool)
    ensures
        plausible == plausible_response(response@),
{
    response.len() >= 3 && response[0] == DELIMITER
}

/// Only a timeout is answered by another read: every other failure ends the
/// exchange at once, each with its own error, and a read is never tried
/// again after it has failed otherwise.
pub proof fn lemma_only_timeout_retries(event: LineEvent)
    ensures
        action_after(event) is PauseThenRead <==> event == LineEvent::ReadTimedOut,
        action_after(event) is GiveUp <==> (event == LineEvent::OpenRefused || event
            == LineEvent::WriteRefused || event == LineEvent::ReadRefused),
        action_after(event) is Deliver <==> event == LineEvent::ReadComplete,
{
}

} // verus!
