//! The command catalog: every command kind with its wire identifier and the
//! length of the reply that the bench sends for it.

use vstd::prelude::*;

verus! {

/// A command that the host can send to a battery slot of the bench.
#[derive(Debug, Clone, Copy, PartialEq, Eq, Structural)]
pub enum Command {
    Ping,
    AssignId,
    RequestData,
    SetCharge,
    SetDischarge,
    SetStandBy,
    RequestCompletion,
}

impl Command {
    /// The byte that stands for this command on the wire.
    pub open spec fn wire_id(self) -> u8 {
        match self {
            Command::Ping => 0x00,
            Command::AssignId => 0x01,
            Command::RequestData => 0x02,
            Command::SetCharge => 0x04,
            Command::SetDischarge => 0x05,
            Command::SetStandBy => 0x06,
            Command::RequestCompletion => 0x07,
        }
    }

    /// The command that a wire identifier stands for, if it stands for one.
    /// The value `0x03` is reserved and, like every value above `0x07`, names
    /// no command.
    pub open spec fn of_wire_id(id: u8) -> Option<Command> {
        if id == 0x00 {
            Some(Command::Ping)
        } else if id == 0x01 {
            Some(Command::AssignId)
        } else if id == 0x02 {
            Some(Command::RequestData)
        } else if id == 0x04 {
            Some(Command::SetCharge)
        } else if id == 0x05 {
            Some(Command::SetDischarge)
        } else if id == 0x06 {
            Some(Command::SetStandBy)
        } else if id == 0x07 {
            Some(Command::RequestCompletion)
        } else {
            None
        }
    }

    /// The number of bytes of the reply to this command, framing included.
    pub open spec fn reply_len(self) -> nat {
        match self {
            Command::RequestData => 16,
            Command::RequestCompletion => 5,
            _ => 4,
        }
    }

    /// The byte that stands for this command on the wire.
    pub fn id(&self) -> (id: u8)
        ensures
            id == self.wire_id(),
    {
        match self {
            Command::Ping => 0x00,
            Command::AssignId => 0x01,
            Command::RequestData => 0x02,
            Command::SetCharge => 0x04,
            Command::SetDischarge => 0x05,
            Command::SetStandBy => 0x06,
            Command::RequestCompletion => 0x07,
        }
    }

    /// Looks a wire identifier up in the catalog.
    pub fn from_id(id: u8) -> (command: Option<Command>)
        ensures
            command == Command::of_wire_id(id),
    {
        match id {
            0x00 => Some(Command::Ping),
            0x01 => Some(Command::AssignId),
            0x02 => Some(Command::RequestData),
            0x04 => Some(Command::SetCharge),
            0x05 => Some(Command::SetDischarge),
            0x06 => Some(Command::SetStandBy),
            0x07 => Some(Command::RequestCompletion),
            _ => None,
        }
    }

    /// The number of bytes that must be read as the reply to this command.
    /// It is fixed by the protocol and never inferred from what arrives.
    pub fn response_lenght(&self) -> (len: usize)
        ensures
            len == self.reply_len(),
    {
        match self {
            Command::RequestData => 16,
            Command::RequestCompletion => 5,
            _ => 4,
        }
    }
}

/// Looking up the wire identifier of a command gives that command back.
pub proof fn lemma_wire_id_round_trip(command: Command)
    ensures
        Command::of_wire_id(command.wire_id()) == Some(command),
{
}

/// A wire identifier that names a command is the identifier of that command,
/// so no two identifiers name the same command and no two commands share one.
pub proof fn lemma_wire_id_unique(id: u8, command: Command)
    ensures
        Command::of_wire_id(id) == Some(command) <==> command.wire_id() == id,
{
}

/// Exactly seven byte values name a command: `0x00` to `0x07` without `0x03`.
pub proof fn lemma_known_wire_ids(id: u8)
    ensures
        Command::of_wire_id(id).is_some() <==> (id <= 0x07 && id != 0x03),
{
}

} // verus!
