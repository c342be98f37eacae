//! HCI events.
use vstd::prelude::*;

use crate::event::command_complete::CommandCompleteEvent;
use crate::event::command_status::CommandStatusEvent;
use crate::event::disconnection_complete::DisconnectionCompleteEvent;
use crate::event::le_meta::LeMetaEvent;

pub mod command_complete;
pub mod disconnection_complete;
pub mod event_list;
pub mod le_connection_complete;
pub mod le_connection_update_complete;
pub mod command_status;
pub mod le_advertising_report;
pub mod le_meta;

verus! {

/// Event code of a Disconnection Complete event.
pub const DISCONNECTION_COMPLETE_CODE: u8 = 0x05;

/// Event code of a Command Complete event.
pub const COMMAND_COMPLETE_CODE: u8 = 0x0E;

/// Event code of a Command Status event.
pub const COMMAND_STATUS_CODE: u8 = 0x0F;

/// Event code of an LE Meta event.
pub const LE_META_CODE: u8 = 0x3E;

/// An HCI event; the events that this library does not read are kept by their code.
///
/// See Core Specification 6.0, Vol.4, Part E, 7.7.
#[derive(Debug, Clone, Copy, PartialEq, Eq)]
pub enum Event {
    CommandComplete(CommandCompleteEvent),
    CommandStatus(CommandStatusEvent),
    DisconnectionComplete(DisconnectionCompleteEvent),
    LeMeta(LeMetaEvent),
    Unsupported(u8),
}

impl Event {
    /// The parameters of the event packet `s` (after its packet type), where they are all there.
    pub open spec fn spec_parameters(s: Seq<u8>) -> Option<Seq<u8>> {
        if s.len() < 2 || s.len() < 2 + s[1] {
            None
        } else {
            Some(s.subrange(2, 2 + s[1]))
        }
    }

    /// Whether parsing the event would meet valid advertising reports too long to be stored.
    pub open spec fn spec_overflows(s: Seq<u8>) -> bool {
        &&& Event::spec_parameters(s) is Some
        &&& s[0] == LE_META_CODE
        &&& LeMetaEvent::spec_overflows(Event::spec_parameters(s)->Some_0)
    }

    /// The event held by the parameters of an event packet with code `code`.
    pub open spec fn spec_from_parameters(code: u8, p: Seq<u8>) -> Option<Event> {
        if code == DISCONNECTION_COMPLETE_CODE {
            match DisconnectionCompleteEvent::spec_parse(p) {
                Some(e) => Some(Event::DisconnectionComplete(e)),
                None => None,
            }
        } else if code == COMMAND_COMPLETE_CODE {
            match CommandCompleteEvent::spec_parse(p) {
                Some(e) => Some(Event::CommandComplete(e)),
                None => None,
            }
        } else if code == COMMAND_STATUS_CODE {
            match CommandStatusEvent::spec_parse(p) {
                Some(e) => Some(Event::CommandStatus(e)),
                None => None,
            }
        } else if code == LE_META_CODE {
            match LeMetaEvent::spec_parse(p) {
                Some(e) => Some(Event::LeMeta(e)),
                None => None,
            }
        } else {
            Some(Event::Unsupported(code))
        }
    }

    /// The outcome of parsing an event packet after its packet type: the event code, the
    /// parameter total length and that many parameter bytes, which must hold a valid event of
    /// that code. The result holds the number of bytes read and the event.
    pub open spec fn spec_parse(s: Seq<u8>) -> Option<(nat, Event)> {
        match Event::spec_parameters(s) {
            Some(p) => match Event::spec_from_parameters(s[0], p) {
                Some(e) => Some(((2 + s[1]) as nat, e)),
                None => None,
            },
            None => None,
        }
    }

    /// Parses an event packet after its packet type.
    pub fn parse(input: &[u8]) -> (r: Option<(usize, Event)>)
        requires
            !Event::spec_overflows(input@),
        ensures
            r matches Some((n, e)) ==> Event::spec_parse(input@) == Some((n as nat, e)),
            r is None ==> Event::spec_parse(input@) is None,
    {
        if input.len() < 2 {
            return None;
        }
        let len = input[1] as usize;
        if input.len() - 2 < len {
            return None;
        }
        let code = input[0];
        let p = vstd::slice::slice_subrange(input, 2, 2 + len);
        let event = if code == DISCONNECTION_COMPLETE_CODE {
            match DisconnectionCompleteEvent::parse(p) {
                Some(e) => Event::DisconnectionComplete(e),
                None => return None,
            }
        } else if code == COMMAND_COMPLETE_CODE {
            match CommandCompleteEvent::parse(p) {
                Some(e) => Event::CommandComplete(e),
                None => return None,
            }
        } else if code == COMMAND_STATUS_CODE {
            match CommandStatusEvent::parse(p) {
                Some(e) => Event::CommandStatus(e),
                None => return None,
            }
        } else if code == LE_META_CODE {
            match LeMetaEvent::parse(p) {
                Some(e) => Event::LeMeta(e),
                None => return None,
            }
        } else {
            Event::Unsupported(code)
        };
        Some((2 + len, event))
    }
}

} // verus!
