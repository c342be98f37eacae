//! Parameters of a LE Connection Update command.
use vstd::prelude::*;

use crate::bytes::{
    lemma_u16_le_bytes_roundtrip, lemma_u16_le_roundtrip, read_u16_le, spec_u16_from_le,
    spec_u16_le_bytes,
};
use crate::connection::connection_event_length::ConnectionEventLengthRange;
use crate::connection::connection_handle::ConnectionHandle;
use crate::connection::connection_interval::ConnectionIntervalRange;
use crate::connection::latency::Latency;
use crate::connection::supervision_timeout::{
    spec_supervision_timeout_is_big_enough, supervision_timeout_is_big_enough, SupervisionTimeout,
};
use crate::encode::EncodeToBuffer;
use crate::error::Error;

verus! {

/// Parameters of a LE Connection Update command: the connection handle, the connection interval
/// range, the maximum latency, the supervision timeout and the connection event length range.
///
/// See Core Specification 6.0, Vol.4, Part E, 7.8.18.
#[derive(Debug, Clone, Copy, PartialEq, Eq, Structural)]
pub struct ConnectionUpdateParameters {
    connection_handle: ConnectionHandle,
    connection_interval_range: ConnectionIntervalRange,
    max_latency: Latency,
    supervision_timeout: SupervisionTimeout,
    connection_event_length_range: ConnectionEventLengthRange,
}

impl ConnectionUpdateParameters {
    /// The outcome of `try_new`: the supervision timeout must be long enough for the maximum
    /// latency and the maximum connection interval.
    pub open spec fn spec_try_new(
        connection_handle: ConnectionHandle,
        connection_interval_range: ConnectionIntervalRange,
        max_latency: Latency,
        supervision_timeout: SupervisionTimeout,
        connection_event_length_range: ConnectionEventLengthRange,
    ) -> Result<ConnectionUpdateParameters, Error> {
        if !spec_supervision_timeout_is_big_enough(
            supervision_timeout.spec_value(),
            max_latency.spec_value(),
            connection_interval_range.spec_max().spec_value(),
        ) {
            Err(Error::SupervisionTimeoutIsNotBigEnough)
        } else {
            Ok(
                ConnectionUpdateParameters::spec_new(
                connection_handle,
                connection_interval_range,
                max_latency,
                supervision_timeout,
                connection_event_length_range,
                ),
            )
        }
    }

    /// Creates connection update parameters, checking the supervision timeout.
    pub fn try_new(
        connection_handle: ConnectionHandle,
        connection_interval_range: ConnectionIntervalRange,
        max_latency: Latency,
        supervision_timeout: SupervisionTimeout,
        connection_event_length_range: ConnectionEventLengthRange,
    ) -> (r: Result<ConnectionUpdateParameters, Error>)
        ensures
            r == ConnectionUpdateParameters::spec_try_new(
                connection_handle,
                connection_interval_range,
                max_latency,
                supervision_timeout,
                connection_event_length_range,
            ),
            r matches Ok(p) ==> {
                &&& p.spec_connection_handle() == connection_handle
                &&& p.spec_connection_interval_range() == connection_interval_range
                &&& p.spec_max_latency() == max_latency
                &&& p.spec_supervision_timeout() == supervision_timeout
                &&& p.spec_connection_event_length_range() == connection_event_length_range
            },
    {
        if !supervision_timeout_is_big_enough(
            supervision_timeout.value(),
            max_latency.value(),
            connection_interval_range.max().value(),
        ) {
            Err(Error::SupervisionTimeoutIsNotBigEnough)
        } else {
            Ok(
                ConnectionUpdateParameters {
                connection_handle,
                connection_interval_range,
                max_latency,
                supervision_timeout,
                connection_event_length_range,
                },
            )
        }
    }

    /// The field `connection_handle`.
    pub closed spec fn spec_connection_handle(self) -> ConnectionHandle {
        self.connection_handle
    }

    /// The field `connection_interval_range`.
    pub closed spec fn spec_connection_interval_range(self) -> ConnectionIntervalRange {
        self.connection_interval_range
    }

    /// The field `max_latency`.
    pub closed spec fn spec_max_latency(self) -> Latency {
        self.max_latency
    }

    /// The field `supervision_timeout`.
    pub closed spec fn spec_supervision_timeout(self) -> SupervisionTimeout {
        self.supervision_timeout
    }

    /// The field `connection_event_length_range`.
    pub closed spec fn spec_connection_event_length_range(self) -> ConnectionEventLengthRange {
        self.connection_event_length_range
    }

    /// The value with the given fields.
    pub closed spec fn spec_new(connection_handle: ConnectionHandle, connection_interval_range: ConnectionIntervalRange, max_latency: Latency, supervision_timeout: SupervisionTimeout, connection_event_length_range: ConnectionEventLengthRange) -> ConnectionUpdateParameters {
        ConnectionUpdateParameters { connection_handle, connection_interval_range, max_latency, supervision_timeout, connection_event_length_range }
    }

    /// Well-formedness: each field holds a valid value.
    pub open spec fn wf(self) -> bool {
        &&& self.spec_connection_handle().wf()
        &&& self.spec_connection_interval_range().wf()
        &&& self.spec_max_latency().wf()
        &&& self.spec_supervision_timeout().wf()
        &&& self.spec_connection_event_length_range().wf()
    }

    /// The field `connection_handle`.
    pub fn connection_handle(&self) -> (r: &ConnectionHandle)
        ensures
            *r == self.spec_connection_handle(),
    {
        &self.connection_handle
    }

    /// The field `connection_interval_range`.
    pub fn connection_interval_range(&self) -> (r: &ConnectionIntervalRange)
        ensures
            *r == self.spec_connection_interval_range(),
    {
        &self.connection_interval_range
    }

    /// The field `max_latency`.
    pub fn max_latency(&self) -> (r: Latency)
        ensures
            r == self.spec_max_latency(),
    {
        self.max_latency
    }

    /// The field `supervision_timeout`.
    pub fn supervision_timeout(&self) -> (r: SupervisionTimeout)
        ensures
            r == self.spec_supervision_timeout(),
    {
        self.supervision_timeout
    }

    /// The field `connection_event_length_range`.
    pub fn connection_event_length_range(&self) -> (r: &ConnectionEventLengthRange)
        ensures
            *r == self.spec_connection_event_length_range(),
    {
        &self.connection_event_length_range
    }

    /// The outcome of parsing exactly 14 bytes: each field in turn, each checked.
    pub open spec fn spec_parse(s: Seq<u8>) -> Option<ConnectionUpdateParameters> {
        let connection_handle = ConnectionHandle::spec_try_new(spec_u16_from_le(s[0], s[1]));
        let connection_interval_range = ConnectionIntervalRange::spec_parse(s.subrange(2, 6));
        let max_latency = Latency::spec_try_new(spec_u16_from_le(s[6], s[7]));
        let supervision_timeout = SupervisionTimeout::spec_try_new(spec_u16_from_le(s[8], s[9]));
        let connection_event_length_range = ConnectionEventLengthRange::spec_parse(s.subrange(10, 14));
        if s.len() == 14 && connection_handle is Ok && connection_interval_range is Some && max_latency is Ok && supervision_timeout is Ok && connection_event_length_range is Some {
            Some(ConnectionUpdateParameters::spec_new(connection_handle->Ok_0, connection_interval_range->Some_0, max_latency->Ok_0, supervision_timeout->Ok_0, connection_event_length_range->Some_0))
        } else {
            None
        }
    }

    /// Parses exactly 14 bytes.
    pub fn parse(input: &[u8]) -> (r: Option<ConnectionUpdateParameters>)
        ensures
            r == ConnectionUpdateParameters::spec_parse(input@),
    {
        if input.len() != 14 {
            return None;
        }
        let connection_handle = match ConnectionHandle::try_new(read_u16_le(input, 0)) {
            Ok(v) => v,
            Err(_) => return None,
        };
        let connection_interval_range = match ConnectionIntervalRange::parse(input, 2) {
            Some(v) => v,
            None => return None,
        };
        let max_latency = match Latency::try_new(read_u16_le(input, 6)) {
            Ok(v) => v,
            Err(_) => return None,
        };
        let supervision_timeout = match SupervisionTimeout::try_new(read_u16_le(input, 8)) {
            Ok(v) => v,
            Err(_) => return None,
        };
        let connection_event_length_range = match ConnectionEventLengthRange::parse(input, 10) {
            Some(v) => v,
            None => return None,
        };
        Some(ConnectionUpdateParameters { connection_handle, connection_interval_range, max_latency, supervision_timeout, connection_event_length_range })
    }

    /// Parsing the encoding of a well-formed value gives it back.
    pub proof fn lemma_parse_encode(self)
        requires
            self.wf(),
        ensures
            ConnectionUpdateParameters::spec_parse(self.spec_encode()) == Some(self),
    {
        let s = self.spec_encode();
        lemma_u16_le_roundtrip(self.connection_handle.spec_value());
        self.connection_handle.lemma_try_new_spec_value();
        assert(s[0] == spec_u16_le_bytes(self.connection_handle.spec_value())[0]);
        assert(s[1] == spec_u16_le_bytes(self.connection_handle.spec_value())[1]);
        self.connection_interval_range.lemma_parse_encode();
        assert(s.subrange(2, 6) =~= self.connection_interval_range.spec_encode());
        lemma_u16_le_roundtrip(self.max_latency.spec_value());
        self.max_latency.lemma_try_new_spec_value();
        assert(s[6] == spec_u16_le_bytes(self.max_latency.spec_value())[0]);
        assert(s[7] == spec_u16_le_bytes(self.max_latency.spec_value())[1]);
        lemma_u16_le_roundtrip(self.supervision_timeout.spec_value());
        self.supervision_timeout.lemma_try_new_spec_value();
        assert(s[8] == spec_u16_le_bytes(self.supervision_timeout.spec_value())[0]);
        assert(s[9] == spec_u16_le_bytes(self.supervision_timeout.spec_value())[1]);
        self.connection_event_length_range.lemma_parse_encode();
        assert(s.subrange(10, 14) =~= self.connection_event_length_range.spec_encode());
    }

    /// A value parsed from bytes is well-formed and encodes to those bytes.
    pub proof fn lemma_encode_parse(s: Seq<u8>)
        ensures
            ConnectionUpdateParameters::spec_parse(s) matches Some(p) ==> p.wf() && p.spec_encode() == s,
    {
        if let Some(p) = ConnectionUpdateParameters::spec_parse(s) {
            ConnectionHandle::lemma_spec_try_new_value(spec_u16_from_le(s[0], s[1]));
            lemma_u16_le_bytes_roundtrip(s[0], s[1]);
            ConnectionIntervalRange::lemma_encode_parse(s.subrange(2, 6));
            Latency::lemma_spec_try_new_value(spec_u16_from_le(s[6], s[7]));
            lemma_u16_le_bytes_roundtrip(s[6], s[7]);
            SupervisionTimeout::lemma_spec_try_new_value(spec_u16_from_le(s[8], s[9]));
            lemma_u16_le_bytes_roundtrip(s[8], s[9]);
            ConnectionEventLengthRange::lemma_encode_parse(s.subrange(10, 14));
            assert(p.spec_encode() =~= s);
        }
    }
}

impl Default for ConnectionUpdateParameters {
    fn default() -> (r: ConnectionUpdateParameters)
        ensures
            r.spec_connection_handle().spec_value() == 0,
            r.spec_connection_interval_range().spec_min().spec_value() == 0x0040,
            r.spec_connection_interval_range().spec_max().spec_value() == 0x0040,
            r.spec_max_latency().spec_value() == 0,
            r.spec_supervision_timeout().spec_value() == 0x0020,
            r.spec_connection_event_length_range().spec_min().spec_value() == 0,
            r.spec_connection_event_length_range().spec_max().spec_value() == 0,
            r.wf(),
    {
        ConnectionUpdateParameters {
            connection_handle: ConnectionHandle::default(),
            connection_interval_range: ConnectionIntervalRange::default(),
            max_latency: Latency::default(),
            supervision_timeout: SupervisionTimeout::default(),
            connection_event_length_range: ConnectionEventLengthRange::default(),
        }
    }
}

impl EncodeToBuffer for ConnectionUpdateParameters {
    open spec fn spec_encode(&self) -> Seq<u8> {
        self.spec_connection_handle().spec_encode()
            + self.spec_connection_interval_range().spec_encode()
            + self.spec_max_latency().spec_encode()
            + self.spec_supervision_timeout().spec_encode()
            + self.spec_connection_event_length_range().spec_encode()
    }

    fn encode(&self, buffer: &mut Vec<u8>) -> (n: usize) {
        let ghost start = buffer@;
        self.connection_handle.encode(buffer);
        self.connection_interval_range.encode(buffer);
        self.max_latency.encode(buffer);
        self.supervision_timeout.encode(buffer);
        self.connection_event_length_range.encode(buffer);
        assert(buffer@ =~= start + self.spec_encode());
        proof {

        }
        14
    }

    fn encoded_size(&self) -> (n: usize) {
        proof {

        }
        14
    }
}

impl ConnectionUpdateParameters {
    /// The rule of `try_new` on the raw values: the supervision timeout (N × 10 ms) must be at
    /// least twice (1 + maximum latency) times the maximum connection interval (N × 1.25 ms), that
    /// is 4 × timeout ≥ (1 + latency) × maximum interval; the parameters then hold the given
    /// fields.
    pub proof fn lemma_try_new_rules(
        connection_handle: ConnectionHandle,
        connection_interval_range: ConnectionIntervalRange,
        max_latency: Latency,
        supervision_timeout: SupervisionTimeout,
        connection_event_length_range: ConnectionEventLengthRange,
    )
        ensures
            ({
                let r = ConnectionUpdateParameters::spec_try_new(
                    connection_handle,
                    connection_interval_range,
                    max_latency,
                    supervision_timeout,
                    connection_event_length_range,
                );
                &&& r is Ok <==> 4 * (supervision_timeout.spec_value() as int) >= (1 + (max_latency.spec_value() as int)) * (connection_interval_range.spec_max().spec_value() as int)
                &&& !(4 * (supervision_timeout.spec_value() as int) >= (1 + (max_latency.spec_value() as int)) * (connection_interval_range.spec_max().spec_value() as int)) ==> r == Err::<ConnectionUpdateParameters, Error>(
                    Error::SupervisionTimeoutIsNotBigEnough,
                )
                &&& r matches Ok(p) ==> p.spec_max_latency() == max_latency && p.spec_supervision_timeout()
                    == supervision_timeout && p.spec_connection_interval_range() == connection_interval_range
                    && p.spec_connection_handle() == connection_handle
            }),
    {
    }
}

} // verus!
