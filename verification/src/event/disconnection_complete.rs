//! Disconnection Complete events.
use vstd::prelude::*;

use crate::bytes::{read_u16_le, spec_u16_from_le};
use crate::error_code::ErrorCode;
use crate::bytes::lemma_u16_from_le_value;
use crate::error_code::lemma_error_code_try_from_u8_to_u8;
use crate::connection::connection_handle::ConnectionHandle;

verus! {

/// Disconnection Complete event.
///
/// See Core Specification 6.0, Vol.4, Part E, 7.7.5.
#[derive(Debug, Clone, Copy, PartialEq, Eq)]
pub struct DisconnectionCompleteEvent {
    status: ErrorCode,
    connection_handle: ConnectionHandle,
    reason: ErrorCode,
}

impl DisconnectionCompleteEvent {
    /// The status of the disconnection.
    pub closed spec fn spec_status(self) -> ErrorCode {
        self.status
    }

    /// The handle of the connection.
    pub closed spec fn spec_connection_handle(self) -> ConnectionHandle {
        self.connection_handle
    }

    /// The reason of the disconnection.
    pub closed spec fn spec_reason(self) -> ErrorCode {
        self.reason
    }

    /// The event with the given fields.
    pub closed spec fn spec_new(status: ErrorCode, connection_handle: ConnectionHandle, reason: ErrorCode) -> DisconnectionCompleteEvent {
        DisconnectionCompleteEvent { status, connection_handle, reason }
    }

    /// Creates the event with the given fields.
    pub fn new(
        status: ErrorCode,
        connection_handle: ConnectionHandle,
        reason: ErrorCode,
    ) -> (r: DisconnectionCompleteEvent)
        ensures
            r == DisconnectionCompleteEvent::spec_new(status, connection_handle, reason),
            r.spec_status() == status,
            r.spec_connection_handle() == connection_handle,
            r.spec_reason() == reason,
    {
        DisconnectionCompleteEvent { status, connection_handle, reason }
    }

    /// The status of the disconnection.
    pub fn status(&self) -> (r: ErrorCode)
        ensures
            r == self.spec_status(),
    {
        self.status
    }

    /// The handle of the connection.
    pub fn connection_handle(&self) -> (r: ConnectionHandle)
        ensures
            r == self.spec_connection_handle(),
    {
        self.connection_handle
    }

    /// The reason of the disconnection.
    pub fn reason(&self) -> (r: ErrorCode)
        ensures
            r == self.spec_reason(),
    {
        self.reason
    }

    /// The outcome of parsing the parameters of the event: the first 4 bytes, any further byte ignored, each field valid.
    pub open spec fn spec_parse(s: Seq<u8>) -> Option<DisconnectionCompleteEvent> {
        let status = ErrorCode::spec_try_from_u8(s[0]);
        let connection_handle = ConnectionHandle::spec_try_new(spec_u16_from_le(s[1], s[2]));
        let reason = ErrorCode::spec_try_from_u8(s[3]);
        if s.len() >= 4 && status is Ok && connection_handle is Ok && reason is Ok {
            Some(DisconnectionCompleteEvent::spec_new(status->Ok_0, connection_handle->Ok_0, reason->Ok_0))
        } else {
            None
        }
    }

    /// Parses the parameters of the event.
    pub fn parse(input: &[u8]) -> (r: Option<DisconnectionCompleteEvent>)
        ensures
            r == DisconnectionCompleteEvent::spec_parse(input@),
    {
        if input.len() < 4 {
            return None;
        }
        let status = match ErrorCode::try_from_u8(input[0]) {
            Ok(v) => v,
            Err(_) => return None,
        };
        let connection_handle = match ConnectionHandle::try_new(read_u16_le(input, 1)) {
            Ok(v) => v,
            Err(_) => return None,
        };
        let reason = match ErrorCode::try_from_u8(input[3]) {
            Ok(v) => v,
            Err(_) => return None,
        };
        Some(DisconnectionCompleteEvent { status, connection_handle, reason })
    }

}

impl DisconnectionCompleteEvent {
    /// The parameters of the event are parsed exactly when they are at least 4 bytes in which each field
    /// holds a valid value, read from its bytes (16-bit fields little-endian), and the event then
    /// holds those values.
    pub proof fn lemma_parse_fields(s: Seq<u8>)
        ensures
            DisconnectionCompleteEvent::spec_parse(s) is Some <==> s.len() >= 4
                && ErrorCode::spec_is_code(s[0])
                && (s[1] as int + 256 * (s[2] as int)) <= 0x0EFF
                && ErrorCode::spec_is_code(s[3]),
            DisconnectionCompleteEvent::spec_parse(s) matches Some(e) ==> {
                &&& e.spec_status().spec_code() == s[0]
                &&& e.spec_connection_handle().spec_value() as int == (s[1] as int + 256 * (s[2] as int))
                &&& e.spec_reason().spec_code() == s[3]
            },
    {
        if s.len() >= 4 {
            if ErrorCode::spec_is_code(s[0]) {
                lemma_error_code_try_from_u8_to_u8(s[0]);
            }
            lemma_u16_from_le_value(s[1], s[2]);
            ConnectionHandle::lemma_spec_try_new_value(spec_u16_from_le(s[1], s[2]));
            if ErrorCode::spec_is_code(s[3]) {
                lemma_error_code_try_from_u8_to_u8(s[3]);
            }
        }
    }
}

} // verus!
