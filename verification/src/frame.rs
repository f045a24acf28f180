//! Frames: the byte sequences that travel over the serial line, and
//! [`BatteryCommand`], their decoded form.
//!
//! A frame is `[DELIMITER, command id, battery id, payload.., checksum]`,
//! where the checksum covers every byte before it.

use vstd::prelude::*;
use vstd::slice::slice_subrange;
use vstd::slice::slice_to_vec;
use crate::checksum::crc8_autosar;
use crate::checksum::crc8_autosar_of;
use crate::command::Command;

verus! {

/// The byte that opens every frame.
pub const DELIMITER: u8 = 0xB3;

/// The shortest frame: delimiter, command id, battery id and checksum around
/// an empty payload.
pub const MIN_FRAME_LEN: usize = 4;

/// Why a byte sequence is not a frame.
#[derive(Debug, Clone, Copy, PartialEq, Eq, Structural)]
pub enum FrameError {
    /// Fewer bytes than the shortest frame has.
    TooShort,
    /// The last byte is not the checksum of the bytes before it: `expected`
    /// is the checksum computed over them, `actual` the byte received.
    CrcMismatch { expected: u8, actual: u8 },
    /// The checksum holds, but the command id names no command.
    UnknownCommand(u8),
}

/// What a frame carries, as a mathematical value.
pub ghost struct FrameContent {
    pub command: Command,
    pub battery_id: u8,
    pub payload: Seq<u8>,
}

/// A command addressed to one battery, or a reply from it.
#[derive(Debug, Clone, PartialEq, Eq)]
pub struct BatteryCommand {
    pub command: Command,
    pub battery_id: u8,
    pub payload: Vec<u8>,
}

impl View for BatteryCommand {
    type V = FrameContent;

    open spec fn view(&self) -> FrameContent {
        FrameContent {
            command: self.command,
            battery_id: self.battery_id,
            payload: self.payload@,
        }
    }
}

/// The bytes of a frame that its checksum covers.
pub open spec fn frame_body(content: FrameContent) -> Seq<u8> {
    seq![DELIMITER, content.command.wire_id(), content.battery_id] + content.payload
}

/// The frame that carries `content`: the body followed by its checksum.
pub open spec fn encoded(content: FrameContent) -> Seq<u8> {
    frame_body(content).push(crc8_autosar(frame_body(content)))
}

/// What a received byte sequence decodes to. The length is tested first, then
/// the checksum, then the command id.
pub open spec fn decoded(bytes: Seq<u8>) -> Result<FrameContent, FrameError> {
    if bytes.len() < MIN_FRAME_LEN {
        Err(FrameError::TooShort)
    } else {
        let expected = crc8_autosar(bytes.drop_last());
        let actual = bytes.last();
        if expected != actual {
            Err(FrameError::CrcMismatch { expected, actual })
        } else {
            match Command::of_wire_id(bytes[1]) {
                None => Err(FrameError::UnknownCommand(bytes[1])),
                Some(command) => Ok(
                    FrameContent {
                        command,
                        battery_id: bytes[2],
                        payload: bytes.subrange(3, bytes.len() - 1),
                    },
                ),
            }
        }
    }
}

impl BatteryCommand {
    /// The integrity code of `buffer`.
    pub fn checksum(buffer: &[u8]) -> (code: u8)
        ensures
            code == crc8_autosar(buffer@),
    {
        crc8_autosar_of(buffer)
    }

    /// Builds the frame for this command.
    pub fn encode(&self) -> (frame: Vec<u8>)
        ensures
            frame@ == encoded(self@),
            frame@.len() == self.payload@.len() + 4,
    {
        let command = self.command;
        let mut buffer: Vec<u8> = Vec::with_capacity(command.response_lenght());
        buffer.push(DELIMITER);
        buffer.push(command.id());
        buffer.push(self.battery_id);
        buffer.extend_from_slice(self.payload.as_slice());
        proof {
            assert(buffer@ =~= frame_body(self@));
        }
        let code = Self::checksum(buffer.as_slice());
        buffer.push(code);
        buffer
    }

    /// Reads a received frame back into a command.
    pub fn decode(packet: &[u8]) -> (result: Result<BatteryCommand, FrameError>)
        ensures
            match result {
                Ok(command) => decoded(packet@) == Ok::<FrameContent, FrameError>(command@),
                Err(error) => decoded(packet@) == Err::<FrameContent, FrameError>(error),
            },
    {
        let len = packet.len();
        if len < MIN_FRAME_LEN {
            return Err(FrameError::TooShort);
        }
        let command_id = packet[1];
        let battery_id = packet[2];
        let received_crc = packet[len - 1];
        let body = slice_subrange(packet, 0, len - 1);
        let calculated_crc = Self::checksum(body);
        if calculated_crc != received_crc {
            return Err(FrameError::CrcMismatch { expected: calculated_crc, actual: received_crc });
        }
        let command = match Command::from_id(command_id) {
            Some(command) => command,
            None => {
                return Err(FrameError::UnknownCommand(command_id));
            },
        };
        let payload = slice_to_vec(slice_subrange(packet, 3, len - 1));
        Ok(BatteryCommand { command, battery_id, payload })
    }
}

/// Decoding the frame of a command gives that command back, whatever the
/// command, the battery id and the payload are.
pub proof fn lemma_decode_inverts_encode(content: FrameContent)
    ensures
        decoded(encoded(content)) == Ok::<FrameContent, FrameError>(content),
{
    let body = frame_body(content);
    let frame = encoded(content);
    assert(frame.drop_last() =~= body);
    assert(frame.subrange(3, frame.len() - 1) =~= content.payload);
    crate::command::lemma_wire_id_round_trip(content.command);
}

/// Two commands with the same frame are the same command.
pub proof fn lemma_encode_injective(first: FrameContent, second: FrameContent)
    requires
        encoded(first) == encoded(second),
    ensures
        first == second,
{
    lemma_decode_inverts_encode(first);
    lemma_decode_inverts_encode(second);
}

/// A byte sequence that decodes to a command and opens with the delimiter is
/// the frame of that command: no other such sequence decodes to it.
pub proof fn lemma_encode_inverts_decode(bytes: Seq<u8>, content: FrameContent)
    requires
        decoded(bytes) == Ok::<FrameContent, FrameError>(content),
        bytes[0] == DELIMITER,
    ensures
        encoded(content) == bytes,
{
    crate::command::lemma_wire_id_unique(bytes[1], content.command);
    assert(frame_body(content) =~= bytes.drop_last());
}

/// An input is rejected as too short exactly when it has fewer bytes than the
/// shortest frame; in particular every input of fewer than three bytes is.
pub proof fn lemma_too_short(bytes: Seq<u8>)
    ensures
        decoded(bytes) == Err::<FrameContent, FrameError>(FrameError::TooShort) <==> bytes.len()
            < MIN_FRAME_LEN,
        bytes.len() < 3 ==> decoded(bytes) == Err::<FrameContent, FrameError>(
            FrameError::TooShort,
        ),
{
}

/// A frame whose checksum byte was replaced by any other value is rejected
/// with a checksum mismatch that names the checksum owed and the byte found.
pub proof fn lemma_corrupted_checksum_rejected(content: FrameContent, received: u8)
    requires
        received != crc8_autosar(frame_body(content)),
    ensures
        decoded(frame_body(content).push(received)) == Err::<FrameContent, FrameError>(
            FrameError::CrcMismatch {
                expected: crc8_autosar(frame_body(content)),
                actual: received,
            },
        ),
{
    let body = frame_body(content);
    assert(body.push(received).drop_last() =~= body);
}

/// Flipping any single bit of a frame's checksum byte makes decoding fail
/// with a checksum mismatch.
pub proof fn lemma_flipped_checksum_bit_rejected(content: FrameContent, bit: u8)
    requires
        bit < 8,
    ensures
        decoded(
            frame_body(content).push(crc8_autosar(frame_body(content)) ^ (1u8 << bit)),
        ) == Err::<FrameContent, FrameError>(
            FrameError::CrcMismatch {
                expected: crc8_autosar(frame_body(content)),
                actual: crc8_autosar(frame_body(content)) ^ (1u8 << bit),
            },
        ),
{
    let code = crc8_autosar(frame_body(content));
    assert(code ^ (1u8 << bit) != code) by (bit_vector)
        requires
            bit < 8,
    ;
    lemma_corrupted_checksum_rejected(content, code ^ (1u8 << bit));
}

/// A sequence of frame length whose checksum holds but whose command id is
/// not in the catalog is rejected as an unknown command, with that id.
pub proof fn lemma_unknown_command_rejected(bytes: Seq<u8>)
    requires
        bytes.len() >= MIN_FRAME_LEN,
        bytes.last() == crc8_autosar(bytes.drop_last()),
        Command::of_wire_id(bytes[1]).is_none(),
    ensures
        decoded(bytes) == Err::<FrameContent, FrameError>(FrameError::UnknownCommand(bytes[1])),
{
}

} // verus!
