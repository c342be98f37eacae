//! LE Connection Complete events.
use vstd::prelude::*;

use crate::bytes::{read_u16_le, spec_u16_from_le};
use crate::error::Error;
use crate::error_code::ErrorCode;
use crate::bytes::lemma_u16_from_le_value;
use crate::error_code::lemma_error_code_try_from_u8_to_u8;
use crate::common::peer_address_type::{parse_peer_address, spec_parse_peer_address};
use crate::connection::connection_handle::ConnectionHandle;
use crate::connection::connection_interval::ConnectionInterval;
use crate::connection::latency::Latency;
use crate::connection::supervision_timeout::SupervisionTimeout;
use crate::device_address::DeviceAddress;

verus! {

/// Role in a connection.
///
/// See Core Specification 6.0, Vol. 4, Part E, 7.7.65.1.
#[derive(Debug, Clone, Copy, PartialEq, Eq, Structural)]
#[non_exhaustive]
pub enum Role {
    /// Connection is central.
    Central,
    /// Connection is peripheral.
    Peripheral,
}

impl Role {
    /// The value of this variant in HCI packets.
    pub open spec fn spec_to_u8(self) -> u8 {
        match self {
            Role::Central => 0x00,
            Role::Peripheral => 0x01,
        }
    }

    /// The values that name a variant.
    pub open spec fn spec_is_valid_u8(v: u8) -> bool {
        v <= 0x01
    }

    /// The variant named by `v`, or the error reporting that `v` names none.
    pub open spec fn spec_try_from_u8(v: u8) -> Result<Role, Error> {
        if Role::spec_is_valid_u8(v) {
            Ok(choose|e: Role| e.spec_to_u8() == v)
        } else {
            Err(Error::InvalidRole(v))
        }
    }

    /// The value of this variant in HCI packets.
    pub fn to_u8(self) -> (r: u8)
        ensures
            r == self.spec_to_u8(),
    {
        match self {
            Role::Central => 0x00,
            Role::Peripheral => 0x01,
        }
    }

    /// Converts a value of an HCI packet into a variant.
    pub fn try_from_u8(v: u8) -> (r: Result<Role, Error>)
        ensures
            r == Role::spec_try_from_u8(v),
            r is Ok <==> Role::spec_is_valid_u8(v),
            r matches Ok(e) ==> e.spec_to_u8() == v,
            r is Err ==> r == Err::<Role, Error>(Error::InvalidRole(v)),
    {
        let r = match v {
            0x00 => Ok(Role::Central),
            0x01 => Ok(Role::Peripheral),
            _ => Err(Error::InvalidRole(v)),
        };
        proof {
            if let Ok(e) = r {
                Role::lemma_to_u8_injective(e, choose|d: Role| d.spec_to_u8() == v);
            }
        }
        r
    }

    /// Distinct variants have distinct values.
    pub proof fn lemma_to_u8_injective(a: Role, b: Role)
        ensures
            a.spec_to_u8() == b.spec_to_u8() ==> a == b,
    {
    }

    /// A value that names a variant names a variant with that value.
    pub proof fn lemma_try_from_u8_to_u8(v: u8)
        requires
            Role::spec_is_valid_u8(v),
        ensures
            Role::spec_try_from_u8(v) is Ok,
            (Role::spec_try_from_u8(v)->Ok_0).spec_to_u8() == v,
    {
        if v == 0x00 {
            assert(Role::Central.spec_to_u8() == v);
        } else if v == 0x01 {
            assert(Role::Peripheral.spec_to_u8() == v);
        }
    }

    /// Converting the value of a variant gives the variant back.
    pub proof fn lemma_try_from_to_u8(self)
        ensures
            Role::spec_try_from_u8(self.spec_to_u8()) == Ok::<Role, Error>(self),
    {
        Role::lemma_to_u8_injective(self, choose|d: Role| d.spec_to_u8() == self.spec_to_u8());
    }
}

impl TryFrom<u8> for Role {
    type Error = Error;

    fn try_from(value: u8) -> Result<Role, Error> {
        Role::try_from_u8(value)
    }
}

impl vstd::std_specs::convert::TryFromSpecImpl<u8> for Role {
    open spec fn obeys_try_from_spec() -> bool {
        true
    }

    open spec fn try_from_spec(v: u8) -> Result<Role, Error> {
        Role::spec_try_from_u8(v)
    }
}

/// Central clock accuracy in a connection.
///
/// See Core Specification 6.0, Vol. 4, Part E, 7.7.65.1.
#[derive(Debug, Clone, Copy, PartialEq, Eq, Structural)]
#[non_exhaustive]
pub enum CentralClockAccuracy {
    /// 500 ppm.
    Ppm500,
    /// 250 ppm.
    Ppm250,
    /// 150 ppm.
    Ppm150,
    /// 100 ppm.
    Ppm100,
    /// 75 ppm.
    Ppm75,
    /// 50 ppm.
    Ppm50,
    /// 30 ppm.
    Ppm30,
    /// 20 ppm.
    Ppm20,
}

impl CentralClockAccuracy {
    /// The value of this variant in HCI packets.
    pub open spec fn spec_to_u8(self) -> u8 {
        match self {
            CentralClockAccuracy::Ppm500 => 0x00,
            CentralClockAccuracy::Ppm250 => 0x01,
            CentralClockAccuracy::Ppm150 => 0x02,
            CentralClockAccuracy::Ppm100 => 0x03,
            CentralClockAccuracy::Ppm75 => 0x04,
            CentralClockAccuracy::Ppm50 => 0x05,
            CentralClockAccuracy::Ppm30 => 0x06,
            CentralClockAccuracy::Ppm20 => 0x07,
        }
    }

    /// The values that name a variant.
    pub open spec fn spec_is_valid_u8(v: u8) -> bool {
        v <= 0x07
    }

    /// The variant named by `v`, or the error reporting that `v` names none.
    pub open spec fn spec_try_from_u8(v: u8) -> Result<CentralClockAccuracy, Error> {
        if CentralClockAccuracy::spec_is_valid_u8(v) {
            Ok(choose|e: CentralClockAccuracy| e.spec_to_u8() == v)
        } else {
            Err(Error::InvalidCentralClockAccuracy(v))
        }
    }

    /// The value of this variant in HCI packets.
    pub fn to_u8(self) -> (r: u8)
        ensures
            r == self.spec_to_u8(),
    {
        match self {
            CentralClockAccuracy::Ppm500 => 0x00,
            CentralClockAccuracy::Ppm250 => 0x01,
            CentralClockAccuracy::Ppm150 => 0x02,
            CentralClockAccuracy::Ppm100 => 0x03,
            CentralClockAccuracy::Ppm75 => 0x04,
            CentralClockAccuracy::Ppm50 => 0x05,
            CentralClockAccuracy::Ppm30 => 0x06,
            CentralClockAccuracy::Ppm20 => 0x07,
        }
    }

    /// Converts a value of an HCI packet into a variant.
    pub fn try_from_u8(v: u8) -> (r: Result<CentralClockAccuracy, Error>)
        ensures
            r == CentralClockAccuracy::spec_try_from_u8(v),
            r is Ok <==> CentralClockAccuracy::spec_is_valid_u8(v),
            r matches Ok(e) ==> e.spec_to_u8() == v,
            r is Err ==> r == Err::<CentralClockAccuracy, Error>(Error::InvalidCentralClockAccuracy(v)),
    {
        let r = match v {
            0x00 => Ok(CentralClockAccuracy::Ppm500),
            0x01 => Ok(CentralClockAccuracy::Ppm250),
            0x02 => Ok(CentralClockAccuracy::Ppm150),
            0x03 => Ok(CentralClockAccuracy::Ppm100),
            0x04 => Ok(CentralClockAccuracy::Ppm75),
            0x05 => Ok(CentralClockAccuracy::Ppm50),
            0x06 => Ok(CentralClockAccuracy::Ppm30),
            0x07 => Ok(CentralClockAccuracy::Ppm20),
            _ => Err(Error::InvalidCentralClockAccuracy(v)),
        };
        proof {
            if let Ok(e) = r {
                CentralClockAccuracy::lemma_to_u8_injective(e, choose|d: CentralClockAccuracy| d.spec_to_u8() == v);
            }
        }
        r
    }

    /// Distinct variants have distinct values.
    pub proof fn lemma_to_u8_injective(a: CentralClockAccuracy, b: CentralClockAccuracy)
        ensures
            a.spec_to_u8() == b.spec_to_u8() ==> a == b,
    {
    }

    /// A value that names a variant names a variant with that value.
    pub proof fn lemma_try_from_u8_to_u8(v: u8)
        requires
            CentralClockAccuracy::spec_is_valid_u8(v),
        ensures
            CentralClockAccuracy::spec_try_from_u8(v) is Ok,
            (CentralClockAccuracy::spec_try_from_u8(v)->Ok_0).spec_to_u8() == v,
    {
        if v == 0x00 {
            assert(CentralClockAccuracy::Ppm500.spec_to_u8() == v);
        } else if v == 0x01 {
            assert(CentralClockAccuracy::Ppm250.spec_to_u8() == v);
        } else if v == 0x02 {
            assert(CentralClockAccuracy::Ppm150.spec_to_u8() == v);
        } else if v == 0x03 {
            assert(CentralClockAccuracy::Ppm100.spec_to_u8() == v);
        } else if v == 0x04 {
            assert(CentralClockAccuracy::Ppm75.spec_to_u8() == v);
        } else if v == 0x05 {
            assert(CentralClockAccuracy::Ppm50.spec_to_u8() == v);
        } else if v == 0x06 {
            assert(CentralClockAccuracy::Ppm30.spec_to_u8() == v);
        } else if v == 0x07 {
            assert(CentralClockAccuracy::Ppm20.spec_to_u8() == v);
        }
    }

    /// Converting the value of a variant gives the variant back.
    pub proof fn lemma_try_from_to_u8(self)
        ensures
            CentralClockAccuracy::spec_try_from_u8(self.spec_to_u8()) == Ok::<CentralClockAccuracy, Error>(self),
    {
        CentralClockAccuracy::lemma_to_u8_injective(self, choose|d: CentralClockAccuracy| d.spec_to_u8() == self.spec_to_u8());
    }
}

impl TryFrom<u8> for CentralClockAccuracy {
    type Error = Error;

    fn try_from(value: u8) -> Result<CentralClockAccuracy, Error> {
        CentralClockAccuracy::try_from_u8(value)
    }
}

impl vstd::std_specs::convert::TryFromSpecImpl<u8> for CentralClockAccuracy {
    open spec fn obeys_try_from_spec() -> bool {
        true
    }

    open spec fn try_from_spec(v: u8) -> Result<CentralClockAccuracy, Error> {
        CentralClockAccuracy::spec_try_from_u8(v)
    }
}

/// LE Connection Complete event.
///
/// See Core Specification 6.0, Vol.4, Part E, 7.7.65.1.
#[derive(Debug, Clone, Copy, PartialEq, Eq)]
pub struct LeConnectionCompleteEvent {
    status: ErrorCode,
    connection_handle: ConnectionHandle,
    role: Role,
    peer_address: DeviceAddress,
    connection_interval: ConnectionInterval,
    peripheral_latency: Latency,
    supervision_timeout: SupervisionTimeout,
    central_clock_accuracy: CentralClockAccuracy,
}

impl LeConnectionCompleteEvent {
    /// The status of the connection.
    pub closed spec fn spec_status(self) -> ErrorCode {
        self.status
    }

    /// The handle of the connection.
    pub closed spec fn spec_connection_handle(self) -> ConnectionHandle {
        self.connection_handle
    }

    /// The role of this device in the connection.
    pub closed spec fn spec_role(self) -> Role {
        self.role
    }

    /// The address of the peer device.
    pub closed spec fn spec_peer_address(self) -> DeviceAddress {
        self.peer_address
    }

    /// The connection interval.
    pub closed spec fn spec_connection_interval(self) -> ConnectionInterval {
        self.connection_interval
    }

    /// The peripheral latency.
    pub closed spec fn spec_peripheral_latency(self) -> Latency {
        self.peripheral_latency
    }

    /// The supervision timeout.
    pub closed spec fn spec_supervision_timeout(self) -> SupervisionTimeout {
        self.supervision_timeout
    }

    /// The central clock accuracy.
    pub closed spec fn spec_central_clock_accuracy(self) -> CentralClockAccuracy {
        self.central_clock_accuracy
    }

    /// The event with the given fields.
    pub closed spec fn spec_new(status: ErrorCode, connection_handle: ConnectionHandle, role: Role, peer_address: DeviceAddress, connection_interval: ConnectionInterval, peripheral_latency: Latency, supervision_timeout: SupervisionTimeout, central_clock_accuracy: CentralClockAccuracy) -> LeConnectionCompleteEvent {
        LeConnectionCompleteEvent { status, connection_handle, role, peer_address, connection_interval, peripheral_latency, supervision_timeout, central_clock_accuracy }
    }

    /// Creates the event with the given fields.
    pub fn new(
        status: ErrorCode,
        connection_handle: ConnectionHandle,
        role: Role,
        peer_address: DeviceAddress,
        connection_interval: ConnectionInterval,
        peripheral_latency: Latency,
        supervision_timeout: SupervisionTimeout,
        central_clock_accuracy: CentralClockAccuracy,
    ) -> (r: LeConnectionCompleteEvent)
        ensures
            r == LeConnectionCompleteEvent::spec_new(status, connection_handle, role, peer_address, connection_interval, peripheral_latency, supervision_timeout, central_clock_accuracy),
            r.spec_status() == status,
            r.spec_connection_handle() == connection_handle,
            r.spec_role() == role,
            r.spec_peer_address() == peer_address,
            r.spec_connection_interval() == connection_interval,
            r.spec_peripheral_latency() == peripheral_latency,
            r.spec_supervision_timeout() == supervision_timeout,
            r.spec_central_clock_accuracy() == central_clock_accuracy,
    {
        LeConnectionCompleteEvent { status, connection_handle, role, peer_address, connection_interval, peripheral_latency, supervision_timeout, central_clock_accuracy }
    }

    /// The status of the connection.
    pub fn status(&self) -> (r: ErrorCode)
        ensures
            r == self.spec_status(),
    {
        self.status
    }

    /// The handle of the connection.
    pub fn connection_handle(&self) -> (r: ConnectionHandle)
        ensures
            r == self.spec_connection_handle(),
    {
        self.connection_handle
    }

    /// The role of this device in the connection.
    pub fn role(&self) -> (r: Role)
        ensures
            r == self.spec_role(),
    {
        self.role
    }

    /// The address of the peer device.
    pub fn peer_address(&self) -> (r: &DeviceAddress)
        ensures
            *r == self.spec_peer_address(),
    {
        &self.peer_address
    }

    /// The connection interval.
    pub fn connection_interval(&self) -> (r: ConnectionInterval)
        ensures
            r == self.spec_connection_interval(),
    {
        self.connection_interval
    }

    /// The peripheral latency.
    pub fn peripheral_latency(&self) -> (r: Latency)
        ensures
            r == self.spec_peripheral_latency(),
    {
        self.peripheral_latency
    }

    /// The supervision timeout.
    pub fn supervision_timeout(&self) -> (r: SupervisionTimeout)
        ensures
            r == self.spec_supervision_timeout(),
    {
        self.supervision_timeout
    }

    /// The central clock accuracy.
    pub fn central_clock_accuracy(&self) -> (r: CentralClockAccuracy)
        ensures
            r == self.spec_central_clock_accuracy(),
    {
        self.central_clock_accuracy
    }

    /// The outcome of parsing the parameters of the event: exactly 18 bytes, each field valid.
    pub open spec fn spec_parse(s: Seq<u8>) -> Option<LeConnectionCompleteEvent> {
        let status = ErrorCode::spec_try_from_u8(s[0]);
        let connection_handle = ConnectionHandle::spec_try_new(spec_u16_from_le(s[1], s[2]));
        let role = Role::spec_try_from_u8(s[3]);
        let peer_address = spec_parse_peer_address(s.subrange(4, 11));
        let connection_interval = ConnectionInterval::spec_try_new(spec_u16_from_le(s[11], s[12]));
        let peripheral_latency = Latency::spec_try_new(spec_u16_from_le(s[13], s[14]));
        let supervision_timeout = SupervisionTimeout::spec_try_new(spec_u16_from_le(s[15], s[16]));
        let central_clock_accuracy = CentralClockAccuracy::spec_try_from_u8(s[17]);
        if s.len() == 18 && status is Ok && connection_handle is Ok && role is Ok && peer_address is Some && connection_interval is Ok && peripheral_latency is Ok && supervision_timeout is Ok && central_clock_accuracy is Ok {
            Some(LeConnectionCompleteEvent::spec_new(status->Ok_0, connection_handle->Ok_0, role->Ok_0, peer_address->Some_0, connection_interval->Ok_0, peripheral_latency->Ok_0, supervision_timeout->Ok_0, central_clock_accuracy->Ok_0))
        } else {
            None
        }
    }

    /// Parses the parameters of the event.
    pub fn parse(input: &[u8]) -> (r: Option<LeConnectionCompleteEvent>)
        ensures
            r == LeConnectionCompleteEvent::spec_parse(input@),
    {
        if input.len() != 18 {
            return None;
        }
        let status = match ErrorCode::try_from_u8(input[0]) {
            Ok(v) => v,
            Err(_) => return None,
        };
        let connection_handle = match ConnectionHandle::try_new(read_u16_le(input, 1)) {
            Ok(v) => v,
            Err(_) => return None,
        };
        let role = match Role::try_from_u8(input[3]) {
            Ok(v) => v,
            Err(_) => return None,
        };
        let peer_address = match parse_peer_address(input, 4) {
            Some(v) => v,
            None => return None,
        };
        let connection_interval = match ConnectionInterval::try_new(read_u16_le(input, 11)) {
            Ok(v) => v,
            Err(_) => return None,
        };
        let peripheral_latency = match Latency::try_new(read_u16_le(input, 13)) {
            Ok(v) => v,
            Err(_) => return None,
        };
        let supervision_timeout = match SupervisionTimeout::try_new(read_u16_le(input, 15)) {
            Ok(v) => v,
            Err(_) => return None,
        };
        let central_clock_accuracy = match CentralClockAccuracy::try_from_u8(input[17]) {
            Ok(v) => v,
            Err(_) => return None,
        };
        Some(LeConnectionCompleteEvent { status, connection_handle, role, peer_address, connection_interval, peripheral_latency, supervision_timeout, central_clock_accuracy })
    }

}

impl Role {
    /// The value of each variant in HCI packets, and the variant each value names.
    pub proof fn lemma_values()
        ensures
            Role::Central.spec_to_u8() == 0x00,
            Role::spec_try_from_u8(0x00) == Ok::<Role, Error>(Role::Central),
            Role::Peripheral.spec_to_u8() == 0x01,
            Role::spec_try_from_u8(0x01) == Ok::<Role, Error>(Role::Peripheral),
    {
        Role::Central.lemma_try_from_to_u8();
        Role::Peripheral.lemma_try_from_to_u8();
    }
}

impl CentralClockAccuracy {
    /// The value of each variant in HCI packets, and the variant each value names.
    pub proof fn lemma_values()
        ensures
            CentralClockAccuracy::Ppm500.spec_to_u8() == 0x00,
            CentralClockAccuracy::spec_try_from_u8(0x00) == Ok::<CentralClockAccuracy, Error>(CentralClockAccuracy::Ppm500),
            CentralClockAccuracy::Ppm250.spec_to_u8() == 0x01,
            CentralClockAccuracy::spec_try_from_u8(0x01) == Ok::<CentralClockAccuracy, Error>(CentralClockAccuracy::Ppm250),
            CentralClockAccuracy::Ppm150.spec_to_u8() == 0x02,
            CentralClockAccuracy::spec_try_from_u8(0x02) == Ok::<CentralClockAccuracy, Error>(CentralClockAccuracy::Ppm150),
            CentralClockAccuracy::Ppm100.spec_to_u8() == 0x03,
            CentralClockAccuracy::spec_try_from_u8(0x03) == Ok::<CentralClockAccuracy, Error>(CentralClockAccuracy::Ppm100),
            CentralClockAccuracy::Ppm75.spec_to_u8() == 0x04,
            CentralClockAccuracy::spec_try_from_u8(0x04) == Ok::<CentralClockAccuracy, Error>(CentralClockAccuracy::Ppm75),
            CentralClockAccuracy::Ppm50.spec_to_u8() == 0x05,
            CentralClockAccuracy::spec_try_from_u8(0x05) == Ok::<CentralClockAccuracy, Error>(CentralClockAccuracy::Ppm50),
            CentralClockAccuracy::Ppm30.spec_to_u8() == 0x06,
            CentralClockAccuracy::spec_try_from_u8(0x06) == Ok::<CentralClockAccuracy, Error>(CentralClockAccuracy::Ppm30),
            CentralClockAccuracy::Ppm20.spec_to_u8() == 0x07,
            CentralClockAccuracy::spec_try_from_u8(0x07) == Ok::<CentralClockAccuracy, Error>(CentralClockAccuracy::Ppm20),
    {
        CentralClockAccuracy::Ppm500.lemma_try_from_to_u8();
        CentralClockAccuracy::Ppm250.lemma_try_from_to_u8();
        CentralClockAccuracy::Ppm150.lemma_try_from_to_u8();
        CentralClockAccuracy::Ppm100.lemma_try_from_to_u8();
        CentralClockAccuracy::Ppm75.lemma_try_from_to_u8();
        CentralClockAccuracy::Ppm50.lemma_try_from_to_u8();
        CentralClockAccuracy::Ppm30.lemma_try_from_to_u8();
        CentralClockAccuracy::Ppm20.lemma_try_from_to_u8();
    }
}

impl LeConnectionCompleteEvent {
    /// The parameters of the event are parsed exactly when they are exactly 18 bytes in which each field
    /// holds a valid value, read from its bytes (16-bit fields little-endian), and the event then
    /// holds those values.
    pub proof fn lemma_parse_fields(s: Seq<u8>)
        ensures
            LeConnectionCompleteEvent::spec_parse(s) is Some <==> s.len() == 18
                && ErrorCode::spec_is_code(s[0])
                && (s[1] as int + 256 * (s[2] as int)) <= 0x0EFF
                && s[3] <= 1
                && spec_parse_peer_address(s.subrange(4, 11)) is Some
                && 6 <= (s[11] as int + 256 * (s[12] as int)) <= 0x0C80
                && (s[13] as int + 256 * (s[14] as int)) <= 0x01F3
                && 10 <= (s[15] as int + 256 * (s[16] as int)) <= 0x0C80
                && s[17] <= 7,
            LeConnectionCompleteEvent::spec_parse(s) matches Some(e) ==> {
                &&& e.spec_status().spec_code() == s[0]
                &&& e.spec_connection_handle().spec_value() as int == (s[1] as int + 256 * (s[2] as int))
                &&& e.spec_role().spec_to_u8() == s[3]
                &&& e.spec_peer_address() == spec_parse_peer_address(s.subrange(4, 11))->Some_0
                &&& e.spec_connection_interval().spec_value() as int == (s[11] as int + 256 * (s[12] as int))
                &&& e.spec_peripheral_latency().spec_value() as int == (s[13] as int + 256 * (s[14] as int))
                &&& e.spec_supervision_timeout().spec_value() as int == (s[15] as int + 256 * (s[16] as int))
                &&& e.spec_central_clock_accuracy().spec_to_u8() == s[17]
            },
    {
        if s.len() == 18 {
            if ErrorCode::spec_is_code(s[0]) {
                lemma_error_code_try_from_u8_to_u8(s[0]);
            }
            lemma_u16_from_le_value(s[1], s[2]);
            ConnectionHandle::lemma_spec_try_new_value(spec_u16_from_le(s[1], s[2]));
            if s[3] <= 1 {
                Role::lemma_try_from_u8_to_u8(s[3]);
            }
            lemma_u16_from_le_value(s[11], s[12]);
            ConnectionInterval::lemma_spec_try_new_value(spec_u16_from_le(s[11], s[12]));
            lemma_u16_from_le_value(s[13], s[14]);
            Latency::lemma_spec_try_new_value(spec_u16_from_le(s[13], s[14]));
            lemma_u16_from_le_value(s[15], s[16]);
            SupervisionTimeout::lemma_spec_try_new_value(spec_u16_from_le(s[15], s[16]));
            if s[17] <= 7 {
                CentralClockAccuracy::lemma_try_from_u8_to_u8(s[17]);
            }
        }
    }
}

} // verus!
