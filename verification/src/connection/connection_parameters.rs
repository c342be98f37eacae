//! Parameters of a LE Create Connection command.
use vstd::prelude::*;

use crate::bytes::{
    lemma_u16_le_bytes_roundtrip, lemma_u16_le_roundtrip, push_u16_le, read_u16_le,
    spec_u16_from_le, spec_u16_le_bytes,
};
use crate::common::own_address_type::OwnAddressType;
use crate::connection::connection_interval::ConnectionIntervalRange;
use crate::connection::connection_peer_address::ConnectionPeerAddress;
use crate::connection::latency::Latency;
use crate::connection::supervision_timeout::{
    spec_supervision_timeout_is_big_enough, supervision_timeout_is_big_enough, SupervisionTimeout,
};
use crate::encode::EncodeToBuffer;
use crate::error::Error;
use crate::scan_interval::ScanInterval;
use crate::scanning::scan_window::ScanWindow;

verus! {

/// Initiator filter policy to determine whether the Filter Accept List is used when creating a
/// connection.
///
/// See Core Specification 6.0, Vol.4, Part E, 7.8.12.
#[derive(Debug, Clone, Copy, PartialEq, Eq, Structural)]
#[non_exhaustive]
pub enum InitiatorFilterPolicy {
    /// The Filter Accept List is not used to determine which advertiser to connect to (default).
    FilterAcceptListNotUsed,
    /// The Filter Accept List is used to determine which advertiser to connect to.
    FilterAcceptListUsed,
}

impl InitiatorFilterPolicy {
    /// The value of this variant in HCI packets.
    pub open spec fn spec_to_u8(self) -> u8 {
        match self {
            InitiatorFilterPolicy::FilterAcceptListNotUsed => 0x00,
            InitiatorFilterPolicy::FilterAcceptListUsed => 0x01,
        }
    }

    /// The values that name a variant.
    pub open spec fn spec_is_valid_u8(v: u8) -> bool {
        v <= 0x01
    }

    /// The variant named by `v`, or the error reporting that `v` names none.
    pub open spec fn spec_try_from_u8(v: u8) -> Result<InitiatorFilterPolicy, Error> {
        if InitiatorFilterPolicy::spec_is_valid_u8(v) {
            Ok(choose|e: InitiatorFilterPolicy| e.spec_to_u8() == v)
        } else {
            Err(Error::InvalidInitiatorFilterPolicy(v))
        }
    }

    /// The value of this variant in HCI packets.
    pub fn to_u8(self) -> (r: u8)
        ensures
            r == self.spec_to_u8(),
    {
        match self {
            InitiatorFilterPolicy::FilterAcceptListNotUsed => 0x00,
            InitiatorFilterPolicy::FilterAcceptListUsed => 0x01,
        }
    }

    /// Converts a value of an HCI packet into a variant.
    pub fn try_from_u8(v: u8) -> (r: Result<InitiatorFilterPolicy, Error>)
        ensures
            r == InitiatorFilterPolicy::spec_try_from_u8(v),
            r is Ok <==> InitiatorFilterPolicy::spec_is_valid_u8(v),
            r matches Ok(e) ==> e.spec_to_u8() == v,
            r is Err ==> r == Err::<InitiatorFilterPolicy, Error>(Error::InvalidInitiatorFilterPolicy(v)),
    {
        let r = match v {
            0x00 => Ok(InitiatorFilterPolicy::FilterAcceptListNotUsed),
            0x01 => Ok(InitiatorFilterPolicy::FilterAcceptListUsed),
            _ => Err(Error::InvalidInitiatorFilterPolicy(v)),
        };
        proof {
            if let Ok(e) = r {
                InitiatorFilterPolicy::lemma_to_u8_injective(e, choose|d: InitiatorFilterPolicy| d.spec_to_u8() == v);
            }
        }
        r
    }

    /// Distinct variants have distinct values.
    pub proof fn lemma_to_u8_injective(a: InitiatorFilterPolicy, b: InitiatorFilterPolicy)
        ensures
            a.spec_to_u8() == b.spec_to_u8() ==> a == b,
    {
    }

    /// A value that names a variant names a variant with that value.
    pub proof fn lemma_try_from_u8_to_u8(v: u8)
        requires
            InitiatorFilterPolicy::spec_is_valid_u8(v),
        ensures
            InitiatorFilterPolicy::spec_try_from_u8(v) is Ok,
            (InitiatorFilterPolicy::spec_try_from_u8(v)->Ok_0).spec_to_u8() == v,
    {
        if v == 0x00 {
            assert(InitiatorFilterPolicy::FilterAcceptListNotUsed.spec_to_u8() == v);
        } else if v == 0x01 {
            assert(InitiatorFilterPolicy::FilterAcceptListUsed.spec_to_u8() == v);
        }
    }

    /// Converting the value of a variant gives the variant back.
    pub proof fn lemma_try_from_to_u8(self)
        ensures
            InitiatorFilterPolicy::spec_try_from_u8(self.spec_to_u8()) == Ok::<InitiatorFilterPolicy, Error>(self),
    {
        InitiatorFilterPolicy::lemma_to_u8_injective(self, choose|d: InitiatorFilterPolicy| d.spec_to_u8() == self.spec_to_u8());
    }
}

impl Default for InitiatorFilterPolicy {
    fn default() -> (r: InitiatorFilterPolicy)
        ensures
            r == InitiatorFilterPolicy::FilterAcceptListNotUsed,
    {
        InitiatorFilterPolicy::FilterAcceptListNotUsed
    }
}

impl TryFrom<u8> for InitiatorFilterPolicy {
    type Error = Error;

    fn try_from(value: u8) -> Result<InitiatorFilterPolicy, Error> {
        InitiatorFilterPolicy::try_from_u8(value)
    }
}

impl vstd::std_specs::convert::TryFromSpecImpl<u8> for InitiatorFilterPolicy {
    open spec fn obeys_try_from_spec() -> bool {
        true
    }

    open spec fn try_from_spec(v: u8) -> Result<InitiatorFilterPolicy, Error> {
        InitiatorFilterPolicy::spec_try_from_u8(v)
    }
}

impl From<InitiatorFilterPolicy> for u8 {
    fn from(value: InitiatorFilterPolicy) -> u8 {
        value.to_u8()
    }
}

impl vstd::std_specs::convert::FromSpecImpl<InitiatorFilterPolicy> for u8 {
    open spec fn obeys_from_spec() -> bool {
        true
    }

    open spec fn from_spec(v: InitiatorFilterPolicy) -> u8 {
        v.spec_to_u8()
    }
}

impl EncodeToBuffer for InitiatorFilterPolicy {
    open spec fn spec_encode(&self) -> Seq<u8> {
        seq![self.spec_to_u8()]
    }

    fn encode(&self, buffer: &mut Vec<u8>) -> (n: usize) {
        buffer.push(self.to_u8());
        1
    }

    fn encoded_size(&self) -> (n: usize) {
        1
    }
}

/// Connection event length.
///
/// The length of connection event recommended for a LE connection.
///
/// Range: 0x0000 to 0xFFFF, Time = N × 0.625 ms (0 ms to 40.959375 s).
///
/// See Core Specification 6.0, Vol.4, Part E, 7.8.12.
#[derive(Debug, Clone, Copy, PartialEq, Eq, Structural, PartialOrd, Ord)]
pub struct ConnectionEventLength {
    value: u16,
}

impl ConnectionEventLength {
    /// The raw value.
    pub closed spec fn spec_value(self) -> u16 {
        self.value
    }

    /// The value holding `value`.
    pub closed spec fn spec_new(value: u16) -> ConnectionEventLength {
        ConnectionEventLength { value }
    }

    /// Creates a value; every raw value is valid.
    pub fn new(value: u16) -> (r: ConnectionEventLength)
        ensures
            r == ConnectionEventLength::spec_new(value),
            r.spec_value() == value,
    {
        ConnectionEventLength { value }
    }

    /// The raw value.
    pub fn value(&self) -> (r: u16)
        ensures
            r == self.spec_value(),
    {
        self.value
    }

    /// Values are determined by their raw value.
    pub proof fn lemma_spec_value_injective(a: ConnectionEventLength, b: ConnectionEventLength)
        ensures
            a.spec_value() == b.spec_value() ==> a == b,
    {
    }

    /// The raw value of a value made by `new` is the value given.
    pub proof fn lemma_spec_new_value(value: u16)
        ensures
            ConnectionEventLength::spec_new(value).spec_value() == value,
    {
    }
}

impl Default for ConnectionEventLength {
    fn default() -> (r: ConnectionEventLength)
        ensures
            r.spec_value() == 0,
    {
        ConnectionEventLength { value: 0 }
    }
}

impl From<u16> for ConnectionEventLength {
    fn from(value: u16) -> ConnectionEventLength {
        ConnectionEventLength::new(value)
    }
}

impl vstd::std_specs::convert::FromSpecImpl<u16> for ConnectionEventLength {
    open spec fn obeys_from_spec() -> bool {
        true
    }

    open spec fn from_spec(v: u16) -> ConnectionEventLength {
        ConnectionEventLength::spec_new(v)
    }
}

impl EncodeToBuffer for ConnectionEventLength {
    open spec fn spec_encode(&self) -> Seq<u8> {
        spec_u16_le_bytes(self.spec_value())
    }

    fn encode(&self, buffer: &mut Vec<u8>) -> (n: usize) {
        push_u16_le(buffer, self.value);
        2
    }

    fn encoded_size(&self) -> (n: usize) {
        2
    }
}

/// A range of connection event lengths: the minimum and the maximum connection event length.
#[derive(Debug, Clone, Copy, PartialEq, Eq, Structural)]
pub struct ConnectionEventLengthRange {
    min: ConnectionEventLength,
    max: ConnectionEventLength,
}

impl ConnectionEventLengthRange {
    /// The lower bound.
    pub closed spec fn spec_min(self) -> ConnectionEventLength {
        self.min
    }

    /// The upper bound.
    pub closed spec fn spec_max(self) -> ConnectionEventLength {
        self.max
    }

    /// Well-formedness: valid bounds, in order.
    pub open spec fn wf(self) -> bool {
        &&& self.spec_min().spec_value() <= self.spec_max().spec_value()
    }

    /// The outcome of `try_new`: the bounds must be in order.
    pub closed spec fn spec_try_new(min: u16, max: u16) -> Result<ConnectionEventLengthRange, Error> {
        if min <= max {
            Ok(ConnectionEventLengthRange { min: ConnectionEventLength::spec_new(min), max: ConnectionEventLength::spec_new(max) })
        } else {
            Err(Error::InvalidConnectionEventLengthRange)
        }
    }

    /// When `try_new` succeeds, and which error it gives otherwise.
    pub proof fn lemma_spec_try_new(min: u16, max: u16)
        ensures
            ConnectionEventLengthRange::spec_try_new(min, max) is Ok <==> min <= max,
            min > max ==> ConnectionEventLengthRange::spec_try_new(min, max) == Err::<ConnectionEventLengthRange, Error>(
                Error::InvalidConnectionEventLengthRange,
            ),
            ConnectionEventLengthRange::spec_try_new(min, max) matches Ok(v) ==> v.spec_min().spec_value() == min
                && v.spec_max().spec_value() == max && v.wf(),
    {
        ConnectionEventLength::lemma_spec_new_value(min);
        ConnectionEventLength::lemma_spec_new_value(max);
    }

    /// Creates a valid range.
    pub fn try_new(min: u16, max: u16) -> (r: Result<ConnectionEventLengthRange, Error>)
        ensures
            r == ConnectionEventLengthRange::spec_try_new(min, max),
            r is Ok <==> min <= max,
            min > max ==> r == Err::<ConnectionEventLengthRange, Error>(
                Error::InvalidConnectionEventLengthRange,
            ),
            r matches Ok(v) ==> v.spec_min().spec_value() == min
                && v.spec_max().spec_value() == max && v.wf(),
    {
        proof {
            ConnectionEventLengthRange::lemma_spec_try_new(min, max);
        }
        if min <= max {
            Ok(ConnectionEventLengthRange { min: ConnectionEventLength::new(min), max: ConnectionEventLength::new(max) })
        } else {
            Err(Error::InvalidConnectionEventLengthRange)
        }
    }

    /// The lower bound.
    pub fn min(&self) -> (r: ConnectionEventLength)
        ensures
            r == self.spec_min(),
    {
        self.min
    }

    /// The upper bound.
    pub fn max(&self) -> (r: ConnectionEventLength)
        ensures
            r == self.spec_max(),
    {
        self.max
    }

    /// The outcome of parsing the four bytes of a range: two little-endian bounds, checked as by
    /// `try_new`.
    pub open spec fn spec_parse(s: Seq<u8>) -> Option<ConnectionEventLengthRange> {
        if s.len() == 4 {
            match ConnectionEventLengthRange::spec_try_new(spec_u16_from_le(s[0], s[1]), spec_u16_from_le(s[2], s[3])) {
                Ok(r) => Some(r),
                Err(_) => None,
            }
        } else {
            None
        }
    }

    /// Parses the range stored in the four bytes at `pos`.
    pub fn parse(input: &[u8], pos: usize) -> (r: Option<ConnectionEventLengthRange>)
        requires
            pos + 4 <= input@.len(),
        ensures
            r == ConnectionEventLengthRange::spec_parse(input@.subrange(pos as int, pos + 4)),
    {
        let ghost s = input@.subrange(pos as int, pos + 4);
        assert(s[0] == input@[pos as int] && s[1] == input@[pos + 1] && s[2] == input@[pos + 2] && s[3] == input@[pos + 3]);
        let len = input.len();
        assert(pos + 2 < len);
        match ConnectionEventLengthRange::try_new(read_u16_le(input, pos), read_u16_le(input, pos + 2)) {
            Ok(r) => Some(r),
            Err(_) => None,
        }
    }

    /// Parsing the encoding of a well-formed range gives it back.
    pub proof fn lemma_parse_encode(self)
        requires
            self.wf(),
        ensures
            ConnectionEventLengthRange::spec_parse(self.spec_encode()) == Some(self),
    {
        let s = self.spec_encode();
        lemma_u16_le_roundtrip(self.min.spec_value());
        lemma_u16_le_roundtrip(self.max.spec_value());
        ConnectionEventLength::lemma_spec_new_value(self.min.spec_value());
        ConnectionEventLength::lemma_spec_new_value(self.max.spec_value());
        ConnectionEventLength::lemma_spec_value_injective(self.min, ConnectionEventLength::spec_new(self.min.spec_value()));
        ConnectionEventLength::lemma_spec_value_injective(self.max, ConnectionEventLength::spec_new(self.max.spec_value()));
        assert(s[0] == spec_u16_le_bytes(self.min.spec_value())[0]);
        assert(s[1] == spec_u16_le_bytes(self.min.spec_value())[1]);
        assert(s[2] == spec_u16_le_bytes(self.max.spec_value())[0]);
        assert(s[3] == spec_u16_le_bytes(self.max.spec_value())[1]);
    }

    /// A range parsed from bytes is well-formed and encodes to those bytes.
    pub proof fn lemma_encode_parse(s: Seq<u8>)
        ensures
            ConnectionEventLengthRange::spec_parse(s) matches Some(r) ==> r.wf() && r.spec_encode() == s,
    {
        if let Some(r) = ConnectionEventLengthRange::spec_parse(s) {
            ConnectionEventLength::lemma_spec_new_value(spec_u16_from_le(s[0], s[1]));
            ConnectionEventLength::lemma_spec_new_value(spec_u16_from_le(s[2], s[3]));
            lemma_u16_le_bytes_roundtrip(s[0], s[1]);
            lemma_u16_le_bytes_roundtrip(s[2], s[3]);
            assert(r.spec_encode() =~= s);
        }
    }
}

impl Default for ConnectionEventLengthRange {
    fn default() -> (r: ConnectionEventLengthRange)
        ensures
            r.spec_min() == r.spec_max(),
            r.spec_min().spec_value() == 0,
            r.wf(),
    {
        ConnectionEventLengthRange { min: ConnectionEventLength::default(), max: ConnectionEventLength::default() }
    }
}

impl EncodeToBuffer for ConnectionEventLengthRange {
    open spec fn spec_encode(&self) -> Seq<u8> {
        self.spec_min().spec_encode() + self.spec_max().spec_encode()
    }

    fn encode(&self, buffer: &mut Vec<u8>) -> (n: usize) {
        let ghost start = buffer@;
        self.min.encode(buffer);
        self.max.encode(buffer);
        assert(buffer@ =~= start + self.spec_encode());
        4
    }

    fn encoded_size(&self) -> (n: usize) {
        4
    }
}

/// Parameters of a LE Create Connection command: the scan interval and window, the initiator
/// filter policy, the peer address, our own address type, the connection interval range, the
/// maximum latency, the supervision timeout and the connection event length range.
///
/// See Core Specification 6.0, Vol.4, Part E, 7.8.12.
#[derive(Debug, Clone, Copy, PartialEq, Eq)]
pub struct ConnectionParameters {
    scan_interval: ScanInterval,
    scan_window: ScanWindow,
    initiator_filter_policy: InitiatorFilterPolicy,
    peer_address: ConnectionPeerAddress,
    own_address_type: OwnAddressType,
    connection_interval_range: ConnectionIntervalRange,
    max_latency: Latency,
    supervision_timeout: SupervisionTimeout,
    connection_event_length_range: ConnectionEventLengthRange,
}

impl ConnectionParameters {
    /// The outcome of `try_new`: the scan window must not be longer than the scan interval, then
    /// the supervision timeout must be long enough for the maximum latency and the maximum
    /// connection interval.
    pub open spec fn spec_try_new(
        scan_interval: ScanInterval,
        scan_window: ScanWindow,
        initiator_filter_policy: InitiatorFilterPolicy,
        peer_address: ConnectionPeerAddress,
        own_address_type: OwnAddressType,
        connection_interval_range: ConnectionIntervalRange,
        max_latency: Latency,
        supervision_timeout: SupervisionTimeout,
        connection_event_length_range: ConnectionEventLengthRange,
    ) -> Result<ConnectionParameters, Error> {
        if scan_window.spec_value() > scan_interval.spec_value() {
            Err(Error::ScanWindowMustBeSmallerOrEqualToScanInterval)
        } else if !spec_supervision_timeout_is_big_enough(
            supervision_timeout.spec_value(),
            max_latency.spec_value(),
            connection_interval_range.spec_max().spec_value(),
        ) {
            Err(Error::SupervisionTimeoutIsNotBigEnough)
        } else {
            Ok(
                ConnectionParameters::spec_new(
                scan_interval,
                scan_window,
                initiator_filter_policy,
                peer_address,
                own_address_type,
                connection_interval_range,
                max_latency,
                supervision_timeout,
                connection_event_length_range,
                ),
            )
        }
    }

    /// Creates connection parameters, checking the scan window and the supervision timeout.
    pub fn try_new(
        scan_interval: ScanInterval,
        scan_window: ScanWindow,
        initiator_filter_policy: InitiatorFilterPolicy,
        peer_address: ConnectionPeerAddress,
        own_address_type: OwnAddressType,
        connection_interval_range: ConnectionIntervalRange,
        max_latency: Latency,
        supervision_timeout: SupervisionTimeout,
        connection_event_length_range: ConnectionEventLengthRange,
    ) -> (r: Result<ConnectionParameters, Error>)
        ensures
            r == ConnectionParameters::spec_try_new(
                scan_interval,
                scan_window,
                initiator_filter_policy,
                peer_address,
                own_address_type,
                connection_interval_range,
                max_latency,
                supervision_timeout,
                connection_event_length_range,
            ),
            r matches Ok(p) ==> {
                &&& p.spec_scan_interval() == scan_interval
                &&& p.spec_scan_window() == scan_window
                &&& p.spec_initiator_filter_policy() == initiator_filter_policy
                &&& p.spec_peer_address() == peer_address
                &&& p.spec_own_address_type() == own_address_type
                &&& p.spec_connection_interval_range() == connection_interval_range
                &&& p.spec_max_latency() == max_latency
                &&& p.spec_supervision_timeout() == supervision_timeout
                &&& p.spec_connection_event_length_range() == connection_event_length_range
            },
    {
        if scan_window.value() > scan_interval.value() {
            Err(Error::ScanWindowMustBeSmallerOrEqualToScanInterval)
        } else if !supervision_timeout_is_big_enough(
            supervision_timeout.value(),
            max_latency.value(),
            connection_interval_range.max().value(),
        ) {
            Err(Error::SupervisionTimeoutIsNotBigEnough)
        } else {
            Ok(
                ConnectionParameters {
                scan_interval,
                scan_window,
                initiator_filter_policy,
                peer_address,
                own_address_type,
                connection_interval_range,
                max_latency,
                supervision_timeout,
                connection_event_length_range,
                },
            )
        }
    }

    /// The field `scan_interval`.
    pub closed spec fn spec_scan_interval(self) -> ScanInterval {
        self.scan_interval
    }

    /// The field `scan_window`.
    pub closed spec fn spec_scan_window(self) -> ScanWindow {
        self.scan_window
    }

    /// The field `initiator_filter_policy`.
    pub closed spec fn spec_initiator_filter_policy(self) -> InitiatorFilterPolicy {
        self.initiator_filter_policy
    }

    /// The field `peer_address`.
    pub closed spec fn spec_peer_address(self) -> ConnectionPeerAddress {
        self.peer_address
    }

    /// The field `own_address_type`.
    pub closed spec fn spec_own_address_type(self) -> OwnAddressType {
        self.own_address_type
    }

    /// The field `connection_interval_range`.
    pub closed spec fn spec_connection_interval_range(self) -> ConnectionIntervalRange {
        self.connection_interval_range
    }

    /// The field `max_latency`.
    pub closed spec fn spec_max_latency(self) -> Latency {
        self.max_latency
    }

    /// The field `supervision_timeout`.
    pub closed spec fn spec_supervision_timeout(self) -> SupervisionTimeout {
        self.supervision_timeout
    }

    /// The field `connection_event_length_range`.
    pub closed spec fn spec_connection_event_length_range(self) -> ConnectionEventLengthRange {
        self.connection_event_length_range
    }

    /// The value with the given fields.
    pub closed spec fn spec_new(scan_interval: ScanInterval, scan_window: ScanWindow, initiator_filter_policy: InitiatorFilterPolicy, peer_address: ConnectionPeerAddress, own_address_type: OwnAddressType, connection_interval_range: ConnectionIntervalRange, max_latency: Latency, supervision_timeout: SupervisionTimeout, connection_event_length_range: ConnectionEventLengthRange) -> ConnectionParameters {
        ConnectionParameters { scan_interval, scan_window, initiator_filter_policy, peer_address, own_address_type, connection_interval_range, max_latency, supervision_timeout, connection_event_length_range }
    }

    /// Well-formedness: each field holds a valid value.
    pub open spec fn wf(self) -> bool {
        &&& self.spec_scan_interval().wf()
        &&& self.spec_scan_window().wf()
        &&& self.spec_peer_address().wf()
        &&& self.spec_connection_interval_range().wf()
        &&& self.spec_max_latency().wf()
        &&& self.spec_supervision_timeout().wf()
        &&& self.spec_connection_event_length_range().wf()
    }

    /// The field `scan_interval`.
    pub fn scan_interval(&self) -> (r: ScanInterval)
        ensures
            r == self.spec_scan_interval(),
    {
        self.scan_interval
    }

    /// The field `scan_window`.
    pub fn scan_window(&self) -> (r: ScanWindow)
        ensures
            r == self.spec_scan_window(),
    {
        self.scan_window
    }

    /// The field `initiator_filter_policy`.
    pub fn initiator_filter_policy(&self) -> (r: InitiatorFilterPolicy)
        ensures
            r == self.spec_initiator_filter_policy(),
    {
        self.initiator_filter_policy
    }

    /// The field `peer_address`.
    pub fn peer_address(&self) -> (r: &ConnectionPeerAddress)
        ensures
            *r == self.spec_peer_address(),
    {
        &self.peer_address
    }

    /// The field `own_address_type`.
    pub fn own_address_type(&self) -> (r: OwnAddressType)
        ensures
            r == self.spec_own_address_type(),
    {
        self.own_address_type
    }

    /// The field `connection_interval_range`.
    pub fn connection_interval_range(&self) -> (r: &ConnectionIntervalRange)
        ensures
            *r == self.spec_connection_interval_range(),
    {
        &self.connection_interval_range
    }

    /// The field `max_latency`.
    pub fn max_latency(&self) -> (r: Latency)
        ensures
            r == self.spec_max_latency(),
    {
        self.max_latency
    }

    /// The field `supervision_timeout`.
    pub fn supervision_timeout(&self) -> (r: SupervisionTimeout)
        ensures
            r == self.spec_supervision_timeout(),
    {
        self.supervision_timeout
    }

    /// The field `connection_event_length_range`.
    pub fn connection_event_length_range(&self) -> (r: &ConnectionEventLengthRange)
        ensures
            *r == self.spec_connection_event_length_range(),
    {
        &self.connection_event_length_range
    }

    /// The outcome of parsing exactly 25 bytes: each field in turn, each checked.
    pub open spec fn spec_parse(s: Seq<u8>) -> Option<ConnectionParameters> {
        let scan_interval = ScanInterval::spec_try_new(spec_u16_from_le(s[0], s[1]));
        let scan_window = ScanWindow::spec_try_new(spec_u16_from_le(s[2], s[3]));
        let initiator_filter_policy = InitiatorFilterPolicy::spec_try_from_u8(s[4]);
        let peer_address = ConnectionPeerAddress::spec_parse(s.subrange(5, 12));
        let own_address_type = OwnAddressType::spec_try_from_u8(s[12]);
        let connection_interval_range = ConnectionIntervalRange::spec_parse(s.subrange(13, 17));
        let max_latency = Latency::spec_try_new(spec_u16_from_le(s[17], s[18]));
        let supervision_timeout = SupervisionTimeout::spec_try_new(spec_u16_from_le(s[19], s[20]));
        let connection_event_length_range = ConnectionEventLengthRange::spec_parse(s.subrange(21, 25));
        if s.len() == 25 && scan_interval is Ok && scan_window is Ok && initiator_filter_policy is Ok && peer_address is Some && own_address_type is Ok && connection_interval_range is Some && max_latency is Ok && supervision_timeout is Ok && connection_event_length_range is Some {
            Some(ConnectionParameters::spec_new(scan_interval->Ok_0, scan_window->Ok_0, initiator_filter_policy->Ok_0, peer_address->Some_0, own_address_type->Ok_0, connection_interval_range->Some_0, max_latency->Ok_0, supervision_timeout->Ok_0, connection_event_length_range->Some_0))
        } else {
            None
        }
    }

    /// Parses exactly 25 bytes.
    pub fn parse(input: &[u8]) -> (r: Option<ConnectionParameters>)
        ensures
            r == ConnectionParameters::spec_parse(input@),
    {
        if input.len() != 25 {
            return None;
        }
        let scan_interval = match ScanInterval::try_new(read_u16_le(input, 0)) {
            Ok(v) => v,
            Err(_) => return None,
        };
        let scan_window = match ScanWindow::try_new(read_u16_le(input, 2)) {
            Ok(v) => v,
            Err(_) => return None,
        };
        let initiator_filter_policy = match InitiatorFilterPolicy::try_from_u8(input[4]) {
            Ok(v) => v,
            Err(_) => return None,
        };
        let peer_address = match ConnectionPeerAddress::parse(input, 5) {
            Some(v) => v,
            None => return None,
        };
        let own_address_type = match OwnAddressType::try_from_u8(input[12]) {
            Ok(v) => v,
            Err(_) => return None,
        };
        let connection_interval_range = match ConnectionIntervalRange::parse(input, 13) {
            Some(v) => v,
            None => return None,
        };
        let max_latency = match Latency::try_new(read_u16_le(input, 17)) {
            Ok(v) => v,
            Err(_) => return None,
        };
        let supervision_timeout = match SupervisionTimeout::try_new(read_u16_le(input, 19)) {
            Ok(v) => v,
            Err(_) => return None,
        };
        let connection_event_length_range = match ConnectionEventLengthRange::parse(input, 21) {
            Some(v) => v,
            None => return None,
        };
        Some(ConnectionParameters { scan_interval, scan_window, initiator_filter_policy, peer_address, own_address_type, connection_interval_range, max_latency, supervision_timeout, connection_event_length_range })
    }

    /// Parsing the encoding of a well-formed value gives it back.
    pub proof fn lemma_parse_encode(self)
        requires
            self.wf(),
        ensures
            ConnectionParameters::spec_parse(self.spec_encode()) == Some(self),
    {
        let s = self.spec_encode();
        lemma_u16_le_roundtrip(self.scan_interval.spec_value());
        self.scan_interval.lemma_try_new_spec_value();
        assert(s[0] == spec_u16_le_bytes(self.scan_interval.spec_value())[0]);
        assert(s[1] == spec_u16_le_bytes(self.scan_interval.spec_value())[1]);
        lemma_u16_le_roundtrip(self.scan_window.spec_value());
        self.scan_window.lemma_try_new_spec_value();
        assert(s[2] == spec_u16_le_bytes(self.scan_window.spec_value())[0]);
        assert(s[3] == spec_u16_le_bytes(self.scan_window.spec_value())[1]);
        self.initiator_filter_policy.lemma_try_from_to_u8();
        self.peer_address.lemma_spec_value_len();
        self.peer_address.lemma_parse_encode();
        assert(s.subrange(5, 12) =~= self.peer_address.spec_encode());
        self.own_address_type.lemma_try_from_to_u8();
        self.connection_interval_range.lemma_parse_encode();
        assert(s.subrange(13, 17) =~= self.connection_interval_range.spec_encode());
        lemma_u16_le_roundtrip(self.max_latency.spec_value());
        self.max_latency.lemma_try_new_spec_value();
        assert(s[17] == spec_u16_le_bytes(self.max_latency.spec_value())[0]);
        assert(s[18] == spec_u16_le_bytes(self.max_latency.spec_value())[1]);
        lemma_u16_le_roundtrip(self.supervision_timeout.spec_value());
        self.supervision_timeout.lemma_try_new_spec_value();
        assert(s[19] == spec_u16_le_bytes(self.supervision_timeout.spec_value())[0]);
        assert(s[20] == spec_u16_le_bytes(self.supervision_timeout.spec_value())[1]);
        self.connection_event_length_range.lemma_parse_encode();
        assert(s.subrange(21, 25) =~= self.connection_event_length_range.spec_encode());
    }

    /// A value parsed from bytes is well-formed and encodes to those bytes.
    pub proof fn lemma_encode_parse(s: Seq<u8>)
        ensures
            ConnectionParameters::spec_parse(s) matches Some(p) ==> p.wf() && p.spec_encode() == s,
    {
        if let Some(p) = ConnectionParameters::spec_parse(s) {
            ScanInterval::lemma_spec_try_new_value(spec_u16_from_le(s[0], s[1]));
            lemma_u16_le_bytes_roundtrip(s[0], s[1]);
            ScanWindow::lemma_spec_try_new_value(spec_u16_from_le(s[2], s[3]));
            lemma_u16_le_bytes_roundtrip(s[2], s[3]);
            InitiatorFilterPolicy::lemma_try_from_u8_to_u8(s[4]);
            ConnectionPeerAddress::lemma_encode_parse(s.subrange(5, 12));
            OwnAddressType::lemma_try_from_u8_to_u8(s[12]);
            ConnectionIntervalRange::lemma_encode_parse(s.subrange(13, 17));
            Latency::lemma_spec_try_new_value(spec_u16_from_le(s[17], s[18]));
            lemma_u16_le_bytes_roundtrip(s[17], s[18]);
            SupervisionTimeout::lemma_spec_try_new_value(spec_u16_from_le(s[19], s[20]));
            lemma_u16_le_bytes_roundtrip(s[19], s[20]);
            ConnectionEventLengthRange::lemma_encode_parse(s.subrange(21, 25));
            assert(p.spec_encode() =~= s);
        }
    }
}

impl Default for ConnectionParameters {
    fn default() -> (r: ConnectionParameters)
        ensures
            r.spec_scan_interval().spec_value() == 0x0010,
            r.spec_scan_window().spec_value() == 0x0010,
            r.spec_initiator_filter_policy() == InitiatorFilterPolicy::FilterAcceptListNotUsed,
            r.spec_peer_address() is PublicDevice,
            r.spec_peer_address().spec_value() == seq![0u8, 0u8, 0u8, 0u8, 0u8, 0u8],
            r.spec_own_address_type() == OwnAddressType::PublicDeviceAddress,
            r.spec_connection_interval_range().spec_min().spec_value() == 0x0040,
            r.spec_connection_interval_range().spec_max().spec_value() == 0x0040,
            r.spec_max_latency().spec_value() == 0,
            r.spec_supervision_timeout().spec_value() == 0x0020,
            r.spec_connection_event_length_range().spec_min().spec_value() == 0,
            r.spec_connection_event_length_range().spec_max().spec_value() == 0,
            r.wf(),
    {
        ConnectionParameters {
            scan_interval: ScanInterval::default(),
            scan_window: ScanWindow::default(),
            initiator_filter_policy: InitiatorFilterPolicy::default(),
            peer_address: ConnectionPeerAddress::default(),
            own_address_type: OwnAddressType::default(),
            connection_interval_range: ConnectionIntervalRange::default(),
            max_latency: Latency::default(),
            supervision_timeout: SupervisionTimeout::default(),
            connection_event_length_range: ConnectionEventLengthRange::default(),
        }
    }
}

impl EncodeToBuffer for ConnectionParameters {
    open spec fn spec_encode(&self) -> Seq<u8> {
        self.spec_scan_interval().spec_encode()
            + self.spec_scan_window().spec_encode()
            + self.spec_initiator_filter_policy().spec_encode()
            + self.spec_peer_address().spec_encode()
            + self.spec_own_address_type().spec_encode()
            + self.spec_connection_interval_range().spec_encode()
            + self.spec_max_latency().spec_encode()
            + self.spec_supervision_timeout().spec_encode()
            + self.spec_connection_event_length_range().spec_encode()
    }

    fn encode(&self, buffer: &mut Vec<u8>) -> (n: usize) {
        let ghost start = buffer@;
        self.scan_interval.encode(buffer);
        self.scan_window.encode(buffer);
        self.initiator_filter_policy.encode(buffer);
        self.peer_address.encode(buffer);
        self.own_address_type.encode(buffer);
        self.connection_interval_range.encode(buffer);
        self.max_latency.encode(buffer);
        self.supervision_timeout.encode(buffer);
        self.connection_event_length_range.encode(buffer);
        assert(buffer@ =~= start + self.spec_encode());
        proof {
        self.peer_address.lemma_spec_value_len();
        }
        25
    }

    fn encoded_size(&self) -> (n: usize) {
        proof {
        self.peer_address.lemma_spec_value_len();
        }
        25
    }
}

impl InitiatorFilterPolicy {
    /// The value of each variant in HCI packets, and the variant each value names.
    pub proof fn lemma_values()
        ensures
            InitiatorFilterPolicy::FilterAcceptListNotUsed.spec_to_u8() == 0x00,
            InitiatorFilterPolicy::spec_try_from_u8(0x00) == Ok::<InitiatorFilterPolicy, Error>(InitiatorFilterPolicy::FilterAcceptListNotUsed),
            InitiatorFilterPolicy::FilterAcceptListUsed.spec_to_u8() == 0x01,
            InitiatorFilterPolicy::spec_try_from_u8(0x01) == Ok::<InitiatorFilterPolicy, Error>(InitiatorFilterPolicy::FilterAcceptListUsed),
    {
        InitiatorFilterPolicy::FilterAcceptListNotUsed.lemma_try_from_to_u8();
        InitiatorFilterPolicy::FilterAcceptListUsed.lemma_try_from_to_u8();
    }
}

impl ConnectionParameters {
    /// The rules of `try_new` on the raw values: the scan window may not be longer than the scan
    /// interval; then the supervision timeout (N × 10 ms) must be at least twice (1 + maximum
    /// latency) times the maximum connection interval (N × 1.25 ms), that is 4 × timeout ≥
    /// (1 + latency) × maximum interval; the parameters then hold the given fields.
    pub proof fn lemma_try_new_rules(
        scan_interval: ScanInterval,
        scan_window: ScanWindow,
        initiator_filter_policy: InitiatorFilterPolicy,
        peer_address: ConnectionPeerAddress,
        own_address_type: OwnAddressType,
        connection_interval_range: ConnectionIntervalRange,
        max_latency: Latency,
        supervision_timeout: SupervisionTimeout,
        connection_event_length_range: ConnectionEventLengthRange,
    )
        ensures
            ({
                let r = ConnectionParameters::spec_try_new(
                    scan_interval,
                scan_window,
                initiator_filter_policy,
                peer_address,
                own_address_type,
                connection_interval_range,
                max_latency,
                supervision_timeout,
                connection_event_length_range,
                );
                &&& r is Ok <==> scan_window.spec_value() <= scan_interval.spec_value() && 4 * (supervision_timeout.spec_value() as int) >= (1 + (max_latency.spec_value() as int)) * (connection_interval_range.spec_max().spec_value() as int)
                &&& scan_window.spec_value() > scan_interval.spec_value() ==> r == Err::<ConnectionParameters, Error>(
                    Error::ScanWindowMustBeSmallerOrEqualToScanInterval,
                )
                &&& scan_window.spec_value() <= scan_interval.spec_value() && !(4 * (supervision_timeout.spec_value() as int) >= (1 + (max_latency.spec_value() as int)) * (connection_interval_range.spec_max().spec_value() as int)) ==> r == Err::<
                    ConnectionParameters,
                    Error,
                >(Error::SupervisionTimeoutIsNotBigEnough)
                &&& r matches Ok(p) ==> p.spec_max_latency() == max_latency && p.spec_supervision_timeout()
                    == supervision_timeout && p.spec_connection_interval_range() == connection_interval_range
                    && p.spec_scan_interval() == scan_interval && p.spec_scan_window() == scan_window
            }),
    {
    }
}

} // verus!
