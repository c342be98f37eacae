//! Command Status events.
use vstd::prelude::*;

use crate::bytes::{read_u16_le, spec_u16_from_le};
use crate::command::CommandOpCode;
use crate::error_code::ErrorCode;

verus! {

/// Command Status event: the status of a command that the Controller started, the number of
/// command packets it accepts and the opcode of the command.
///
/// See Core Specification 6.0, Vol.4, Part E, 7.7.15.
#[derive(Debug, Clone, Copy, PartialEq, Eq)]
pub struct CommandStatusEvent {
    pub status: ErrorCode,
    pub num_hci_command_packets: u8,
    pub opcode: CommandOpCode,
}

impl CommandStatusEvent {
    /// Creates a Command Status event.
    pub fn new(status: ErrorCode, num_hci_command_packets: u8, opcode: CommandOpCode) -> (r:
        CommandStatusEvent)
        ensures
            r == (CommandStatusEvent { status, num_hci_command_packets, opcode }),
    {
        CommandStatusEvent { status, num_hci_command_packets, opcode }
    }

    /// The outcome of parsing the parameters of the event: exactly four bytes, a valid status,
    /// the number of command packets and the opcode.
    pub open spec fn spec_parse(s: Seq<u8>) -> Option<CommandStatusEvent> {
        if s.len() == 4 && ErrorCode::spec_try_from_u8(s[0]) is Ok {
            Some(
                CommandStatusEvent {
                    status: ErrorCode::spec_try_from_u8(s[0])->Ok_0,
                    num_hci_command_packets: s[1],
                    opcode: CommandOpCode::spec_from_u16(spec_u16_from_le(s[2], s[3])),
                },
            )
        } else {
            None
        }
    }

    /// Parses the parameters of the event.
    pub fn parse(input: &[u8]) -> (r: Option<CommandStatusEvent>)
        ensures
            r == CommandStatusEvent::spec_parse(input@),
    {
        if input.len() != 4 {
            return None;
        }
        match ErrorCode::try_from_u8(input[0]) {
            Ok(status) => Some(
                CommandStatusEvent {
                    status,
                    num_hci_command_packets: input[1],
                    opcode: CommandOpCode::from_u16(read_u16_le(input, 2)),
                },
            ),
            Err(_) => None,
        }
    }
}

impl CommandStatusEvent {
    /// The parameters of the event are parsed exactly when they are four bytes starting with a
    /// valid status; the event holds that status, the number of command packets of the second
    /// byte and the opcode of the last two bytes, little-endian.
    pub proof fn lemma_parse_fields(s: Seq<u8>)
        ensures
            CommandStatusEvent::spec_parse(s) is Some <==> s.len() == 4 && ErrorCode::spec_is_code(s[0]),
            CommandStatusEvent::spec_parse(s) matches Some(e) ==> {
                &&& e.status.spec_code() == s[0]
                &&& e.num_hci_command_packets == s[1]
                &&& e.opcode.spec_to_u16() as int == s[2] as int + 256 * (s[3] as int)
            },
    {
        if s.len() == 4 {
            if ErrorCode::spec_is_code(s[0]) {
                crate::error_code::lemma_error_code_try_from_u8_to_u8(s[0]);
            }
            crate::bytes::lemma_u16_from_le_value(s[2], s[3]);
            CommandOpCode::lemma_to_from_u16(spec_u16_from_le(s[2], s[3]));
        }
    }
}


} // verus!
