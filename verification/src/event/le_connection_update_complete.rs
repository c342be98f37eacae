//! LE Connection Update Complete events.
use vstd::prelude::*;

use crate::bytes::{read_u16_le, spec_u16_from_le};
use crate::error_code::ErrorCode;
use crate::bytes::lemma_u16_from_le_value;
use crate::error_code::lemma_error_code_try_from_u8_to_u8;
use crate::connection::connection_handle::ConnectionHandle;
use crate::connection::connection_interval::ConnectionInterval;
use crate::connection::latency::Latency;
use crate::connection::supervision_timeout::SupervisionTimeout;

verus! {

/// LE Connection Update Complete event.
///
/// See Core Specification 6.0, Vol.4, Part E, 7.7.65.3.
#[derive(Debug, Clone, Copy, PartialEq, Eq)]
pub struct LeConnectionUpdateCompleteEvent {
    status: ErrorCode,
    connection_handle: ConnectionHandle,
    connection_interval: ConnectionInterval,
    peripheral_latency: Latency,
    supervision_timeout: SupervisionTimeout,
}

impl LeConnectionUpdateCompleteEvent {
    /// The status of the update.
    pub closed spec fn spec_status(self) -> ErrorCode {
        self.status
    }

    /// The handle of the connection.
    pub closed spec fn spec_connection_handle(self) -> ConnectionHandle {
        self.connection_handle
    }

    /// The new connection interval.
    pub closed spec fn spec_connection_interval(self) -> ConnectionInterval {
        self.connection_interval
    }

    /// The new peripheral latency.
    pub closed spec fn spec_peripheral_latency(self) -> Latency {
        self.peripheral_latency
    }

    /// The new supervision timeout.
    pub closed spec fn spec_supervision_timeout(self) -> SupervisionTimeout {
        self.supervision_timeout
    }

    /// The event with the given fields.
    pub closed spec fn spec_new(status: ErrorCode, connection_handle: ConnectionHandle, connection_interval: ConnectionInterval, peripheral_latency: Latency, supervision_timeout: SupervisionTimeout) -> LeConnectionUpdateCompleteEvent {
        LeConnectionUpdateCompleteEvent { status, connection_handle, connection_interval, peripheral_latency, supervision_timeout }
    }

    /// Creates the event with the given fields.
    pub fn new(
        status: ErrorCode,
        connection_handle: ConnectionHandle,
        connection_interval: ConnectionInterval,
        peripheral_latency: Latency,
        supervision_timeout: SupervisionTimeout,
    ) -> (r: LeConnectionUpdateCompleteEvent)
        ensures
            r == LeConnectionUpdateCompleteEvent::spec_new(status, connection_handle, connection_interval, peripheral_latency, supervision_timeout),
            r.spec_status() == status,
            r.spec_connection_handle() == connection_handle,
            r.spec_connection_interval() == connection_interval,
            r.spec_peripheral_latency() == peripheral_latency,
            r.spec_supervision_timeout() == supervision_timeout,
    {
        LeConnectionUpdateCompleteEvent { status, connection_handle, connection_interval, peripheral_latency, supervision_timeout }
    }

    /// The status of the update.
    pub fn status(&self) -> (r: ErrorCode)
        ensures
            r == self.spec_status(),
    {
        self.status
    }

    /// The handle of the connection.
    pub fn connection_handle(&self) -> (r: ConnectionHandle)
        ensures
            r == self.spec_connection_handle(),
    {
        self.connection_handle
    }

    /// The new connection interval.
    pub fn connection_interval(&self) -> (r: ConnectionInterval)
        ensures
            r == self.spec_connection_interval(),
    {
        self.connection_interval
    }

    /// The new peripheral latency.
    pub fn peripheral_latency(&self) -> (r: Latency)
        ensures
            r == self.spec_peripheral_latency(),
    {
        self.peripheral_latency
    }

    /// The new supervision timeout.
    pub fn supervision_timeout(&self) -> (r: SupervisionTimeout)
        ensures
            r == self.spec_supervision_timeout(),
    {
        self.supervision_timeout
    }

    /// The outcome of parsing the parameters of the event: exactly 9 bytes, each field valid.
    pub open spec fn spec_parse(s: Seq<u8>) -> Option<LeConnectionUpdateCompleteEvent> {
        let status = ErrorCode::spec_try_from_u8(s[0]);
        let connection_handle = ConnectionHandle::spec_try_new(spec_u16_from_le(s[1], s[2]));
        let connection_interval = ConnectionInterval::spec_try_new(spec_u16_from_le(s[3], s[4]));
        let peripheral_latency = Latency::spec_try_new(spec_u16_from_le(s[5], s[6]));
        let supervision_timeout = SupervisionTimeout::spec_try_new(spec_u16_from_le(s[7], s[8]));
        if s.len() == 9 && status is Ok && connection_handle is Ok && connection_interval is Ok && peripheral_latency is Ok && supervision_timeout is Ok {
            Some(LeConnectionUpdateCompleteEvent::spec_new(status->Ok_0, connection_handle->Ok_0, connection_interval->Ok_0, peripheral_latency->Ok_0, supervision_timeout->Ok_0))
        } else {
            None
        }
    }

    /// Parses the parameters of the event.
    pub fn parse(input: &[u8]) -> (r: Option<LeConnectionUpdateCompleteEvent>)
        ensures
            r == LeConnectionUpdateCompleteEvent::spec_parse(input@),
    {
        if input.len() != 9 {
            return None;
        }
        let status = match ErrorCode::try_from_u8(input[0]) {
            Ok(v) => v,
            Err(_) => return None,
        };
        let connection_handle = match ConnectionHandle::try_new(read_u16_le(input, 1)) {
            Ok(v) => v,
            Err(_) => return None,
        };
        let connection_interval = match ConnectionInterval::try_new(read_u16_le(input, 3)) {
            Ok(v) => v,
            Err(_) => return None,
        };
        let peripheral_latency = match Latency::try_new(read_u16_le(input, 5)) {
            Ok(v) => v,
            Err(_) => return None,
        };
        let supervision_timeout = match SupervisionTimeout::try_new(read_u16_le(input, 7)) {
            Ok(v) => v,
            Err(_) => return None,
        };
        Some(LeConnectionUpdateCompleteEvent { status, connection_handle, connection_interval, peripheral_latency, supervision_timeout })
    }

}

impl LeConnectionUpdateCompleteEvent {
    /// The parameters of the event are parsed exactly when they are exactly 9 bytes in which each field
    /// holds a valid value, read from its bytes (16-bit fields little-endian), and the event then
    /// holds those values.
    pub proof fn lemma_parse_fields(s: Seq<u8>)
        ensures
            LeConnectionUpdateCompleteEvent::spec_parse(s) is Some <==> s.len() == 9
                && ErrorCode::spec_is_code(s[0])
                && (s[1] as int + 256 * (s[2] as int)) <= 0x0EFF
                && 6 <= (s[3] as int + 256 * (s[4] as int)) <= 0x0C80
                && (s[5] as int + 256 * (s[6] as int)) <= 0x01F3
                && 10 <= (s[7] as int + 256 * (s[8] as int)) <= 0x0C80,
            LeConnectionUpdateCompleteEvent::spec_parse(s) matches Some(e) ==> {
                &&& e.spec_status().spec_code() == s[0]
                &&& e.spec_connection_handle().spec_value() as int == (s[1] as int + 256 * (s[2] as int))
                &&& e.spec_connection_interval().spec_value() as int == (s[3] as int + 256 * (s[4] as int))
                &&& e.spec_peripheral_latency().spec_value() as int == (s[5] as int + 256 * (s[6] as int))
                &&& e.spec_supervision_timeout().spec_value() as int == (s[7] as int + 256 * (s[8] as int))
            },
    {
        if s.len() == 9 {
            if ErrorCode::spec_is_code(s[0]) {
                lemma_error_code_try_from_u8_to_u8(s[0]);
            }
            lemma_u16_from_le_value(s[1], s[2]);
            ConnectionHandle::lemma_spec_try_new_value(spec_u16_from_le(s[1], s[2]));
            lemma_u16_from_le_value(s[3], s[4]);
            ConnectionInterval::lemma_spec_try_new_value(spec_u16_from_le(s[3], s[4]));
            lemma_u16_from_le_value(s[5], s[6]);
            Latency::lemma_spec_try_new_value(spec_u16_from_le(s[5], s[6]));
            lemma_u16_from_le_value(s[7], s[8]);
            SupervisionTimeout::lemma_spec_try_new_value(spec_u16_from_le(s[7], s[8]));
        }
    }
}

} // verus!
