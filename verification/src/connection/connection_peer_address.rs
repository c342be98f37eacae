//! Peer addresses of LE connections.
use vstd::prelude::*;

use crate::bytes::read_array6;
use crate::device_address::{PublicDeviceAddress, RandomAddress};
use crate::encode::EncodeToBuffer;
use crate::error::Error;

verus! {

/// Address type contained in a LE Advertising Report event and a LE Connection command.
///
/// See Core Specification 6.0, Vol.4, Part E, 7.7.65.2 and 7.8.12.
#[derive(Debug, Clone, Copy, PartialEq, Eq, Structural)]
#[non_exhaustive]
pub enum ConnectionPeerAddressType {
    /// Public device address.
    PublicDevice,
    /// Random device address.
    RandomDevice,
    /// Public identity address (corresponds to a resolved RPA).
    PublicIdentity,
    /// Random (static) identity address (corresponds to a resolved RPA).
    RandomIdentity,
}

impl ConnectionPeerAddressType {
    /// The value of this variant in HCI packets.
    pub open spec fn spec_to_u8(self) -> u8 {
        match self {
            ConnectionPeerAddressType::PublicDevice => 0x00,
            ConnectionPeerAddressType::RandomDevice => 0x01,
            ConnectionPeerAddressType::PublicIdentity => 0x02,
            ConnectionPeerAddressType::RandomIdentity => 0x03,
        }
    }

    /// The values that name a variant.
    pub open spec fn spec_is_valid_u8(v: u8) -> bool {
        v <= 0x03
    }

    /// The variant named by `v`, or the error reporting that `v` names none.
    pub open spec fn spec_try_from_u8(v: u8) -> Result<ConnectionPeerAddressType, Error> {
        if ConnectionPeerAddressType::spec_is_valid_u8(v) {
            Ok(choose|e: ConnectionPeerAddressType| e.spec_to_u8() == v)
        } else {
            Err(Error::InvalidConnectionPeerAddressType(v))
        }
    }

    /// The value of this variant in HCI packets.
    pub fn to_u8(self) -> (r: u8)
        ensures
            r == self.spec_to_u8(),
    {
        match self {
            ConnectionPeerAddressType::PublicDevice => 0x00,
            ConnectionPeerAddressType::RandomDevice => 0x01,
            ConnectionPeerAddressType::PublicIdentity => 0x02,
            ConnectionPeerAddressType::RandomIdentity => 0x03,
        }
    }

    /// Converts a value of an HCI packet into a variant.
    pub fn try_from_u8(v: u8) -> (r: Result<ConnectionPeerAddressType, Error>)
        ensures
            r == ConnectionPeerAddressType::spec_try_from_u8(v),
            r is Ok <==> ConnectionPeerAddressType::spec_is_valid_u8(v),
            r matches Ok(e) ==> e.spec_to_u8() == v,
            r is Err ==> r == Err::<ConnectionPeerAddressType, Error>(Error::InvalidConnectionPeerAddressType(v)),
    {
        let r = match v {
            0x00 => Ok(ConnectionPeerAddressType::PublicDevice),
            0x01 => Ok(ConnectionPeerAddressType::RandomDevice),
            0x02 => Ok(ConnectionPeerAddressType::PublicIdentity),
            0x03 => Ok(ConnectionPeerAddressType::RandomIdentity),
            _ => Err(Error::InvalidConnectionPeerAddressType(v)),
        };
        proof {
            if let Ok(e) = r {
                ConnectionPeerAddressType::lemma_to_u8_injective(e, choose|d: ConnectionPeerAddressType| d.spec_to_u8() == v);
            }
        }
        r
    }

    /// Distinct variants have distinct values.
    pub proof fn lemma_to_u8_injective(a: ConnectionPeerAddressType, b: ConnectionPeerAddressType)
        ensures
            a.spec_to_u8() == b.spec_to_u8() ==> a == b,
    {
    }

    /// A value that names a variant names a variant with that value.
    pub proof fn lemma_try_from_u8_to_u8(v: u8)
        requires
            ConnectionPeerAddressType::spec_is_valid_u8(v),
        ensures
            ConnectionPeerAddressType::spec_try_from_u8(v) is Ok,
            (ConnectionPeerAddressType::spec_try_from_u8(v)->Ok_0).spec_to_u8() == v,
    {
        if v == 0x00 {
            assert(ConnectionPeerAddressType::PublicDevice.spec_to_u8() == v);
        } else if v == 0x01 {
            assert(ConnectionPeerAddressType::RandomDevice.spec_to_u8() == v);
        } else if v == 0x02 {
            assert(ConnectionPeerAddressType::PublicIdentity.spec_to_u8() == v);
        } else if v == 0x03 {
            assert(ConnectionPeerAddressType::RandomIdentity.spec_to_u8() == v);
        }
    }

    /// Converting the value of a variant gives the variant back.
    pub proof fn lemma_try_from_to_u8(self)
        ensures
            ConnectionPeerAddressType::spec_try_from_u8(self.spec_to_u8()) == Ok::<ConnectionPeerAddressType, Error>(self),
    {
        ConnectionPeerAddressType::lemma_to_u8_injective(self, choose|d: ConnectionPeerAddressType| d.spec_to_u8() == self.spec_to_u8());
    }
}

impl TryFrom<u8> for ConnectionPeerAddressType {
    type Error = Error;

    fn try_from(value: u8) -> Result<ConnectionPeerAddressType, Error> {
        ConnectionPeerAddressType::try_from_u8(value)
    }
}

impl vstd::std_specs::convert::TryFromSpecImpl<u8> for ConnectionPeerAddressType {
    open spec fn obeys_try_from_spec() -> bool {
        true
    }

    open spec fn try_from_spec(v: u8) -> Result<ConnectionPeerAddressType, Error> {
        ConnectionPeerAddressType::spec_try_from_u8(v)
    }
}

impl From<ConnectionPeerAddressType> for u8 {
    fn from(value: ConnectionPeerAddressType) -> u8 {
        value.to_u8()
    }
}

impl vstd::std_specs::convert::FromSpecImpl<ConnectionPeerAddressType> for u8 {
    open spec fn obeys_from_spec() -> bool {
        true
    }

    open spec fn from_spec(v: ConnectionPeerAddressType) -> u8 {
        v.spec_to_u8()
    }
}

impl EncodeToBuffer for ConnectionPeerAddressType {
    open spec fn spec_encode(&self) -> Seq<u8> {
        seq![self.spec_to_u8()]
    }

    fn encode(&self, buffer: &mut Vec<u8>) -> (n: usize) {
        buffer.push(self.to_u8());
        1
    }

    fn encoded_size(&self) -> (n: usize) {
        1
    }
}

/// Address contained in a LE Advertising Report event and a LE Connection command.
///
/// See Core Specification 6.0, Vol.4, Part E, 7.7.65.2 and 7.8.12.
#[derive(Debug, Clone, Copy, PartialEq, Eq)]
pub enum ConnectionPeerAddress {
    PublicDevice(PublicDeviceAddress),
    RandomDevice(RandomAddress),
    PublicIdentity(PublicDeviceAddress),
    RandomIdentity(RandomAddress),
}

impl ConnectionPeerAddress {
    /// The six bytes of the address.
    pub open spec fn spec_value(self) -> Seq<u8> {
        match self {
            ConnectionPeerAddress::PublicDevice(a) => a.spec_value(),
            ConnectionPeerAddress::RandomDevice(a) => a.spec_value(),
            ConnectionPeerAddress::PublicIdentity(a) => a.spec_value(),
            ConnectionPeerAddress::RandomIdentity(a) => a.spec_value(),
        }
    }

    /// Well-formedness: a random address follows the rules of its subtype.
    pub open spec fn wf(self) -> bool {
        match self {
            ConnectionPeerAddress::PublicDevice(a) => a.wf(),
            ConnectionPeerAddress::RandomDevice(a) => a.wf(),
            ConnectionPeerAddress::PublicIdentity(a) => a.wf(),
            ConnectionPeerAddress::RandomIdentity(a) => a.wf(),
        }
    }

    /// The type of the address.
    pub open spec fn spec_address_type(self) -> ConnectionPeerAddressType {
        match self {
            ConnectionPeerAddress::PublicDevice(_) => ConnectionPeerAddressType::PublicDevice,
            ConnectionPeerAddress::RandomDevice(_) => ConnectionPeerAddressType::RandomDevice,
            ConnectionPeerAddress::PublicIdentity(_) => ConnectionPeerAddressType::PublicIdentity,
            ConnectionPeerAddress::RandomIdentity(_) => ConnectionPeerAddressType::RandomIdentity,
        }
    }

    /// The six bytes of the address.
    pub fn value(&self) -> (r: &[u8; 6])
        ensures
            r@ == self.spec_value(),
    {
        match self {
            ConnectionPeerAddress::PublicDevice(a) => a.value(),
            ConnectionPeerAddress::RandomDevice(a) => a.value(),
            ConnectionPeerAddress::PublicIdentity(a) => a.value(),
            ConnectionPeerAddress::RandomIdentity(a) => a.value(),
        }
    }

    /// The type of the address.
    pub fn address_type(&self) -> (r: ConnectionPeerAddressType)
        ensures
            r == self.spec_address_type(),
    {
        match self {
            ConnectionPeerAddress::PublicDevice(_) => ConnectionPeerAddressType::PublicDevice,
            ConnectionPeerAddress::RandomDevice(_) => ConnectionPeerAddressType::RandomDevice,
            ConnectionPeerAddress::PublicIdentity(_) => ConnectionPeerAddressType::PublicIdentity,
            ConnectionPeerAddress::RandomIdentity(_) => ConnectionPeerAddressType::RandomIdentity,
        }
    }

    /// The address held by seven bytes: a type byte (0 to 3) and six address bytes, which for a
    /// random address follow the rules of their subtype.
    pub open spec fn spec_parse(s: Seq<u8>) -> Option<ConnectionPeerAddress> {
        let bytes = s.subrange(1, 7);
        if s.len() != 7 {
            None
        } else if s[0] == 0 {
            Some(ConnectionPeerAddress::PublicDevice(PublicDeviceAddress::spec_new(bytes)))
        } else if s[0] == 2 {
            Some(ConnectionPeerAddress::PublicIdentity(PublicDeviceAddress::spec_new(bytes)))
        } else if s[0] == 1 {
            match RandomAddress::spec_try_from_bytes(bytes) {
                Ok(a) => Some(ConnectionPeerAddress::RandomDevice(a)),
                Err(_) => None,
            }
        } else if s[0] == 3 {
            match RandomAddress::spec_try_from_bytes(bytes) {
                Ok(a) => Some(ConnectionPeerAddress::RandomIdentity(a)),
                Err(_) => None,
            }
        } else {
            None
        }
    }

    /// Parses the address stored in the seven bytes at `pos`.
    pub fn parse(input: &[u8], pos: usize) -> (r: Option<ConnectionPeerAddress>)
        requires
            pos + 7 <= input@.len(),
        ensures
            r == ConnectionPeerAddress::spec_parse(input@.subrange(pos as int, pos + 7)),
    {
        let ghost s = input@.subrange(pos as int, pos + 7);
        let kind = input[pos];
        let bytes = read_array6(input, pos + 1);
        assert(bytes@ =~= s.subrange(1, 7));
        if kind == 0 {
            Some(ConnectionPeerAddress::PublicDevice(PublicDeviceAddress::new(bytes)))
        } else if kind == 2 {
            Some(ConnectionPeerAddress::PublicIdentity(PublicDeviceAddress::new(bytes)))
        } else if kind == 1 {
            match RandomAddress::try_from_bytes(bytes) {
                Ok(a) => Some(ConnectionPeerAddress::RandomDevice(a)),
                Err(_) => None,
            }
        } else if kind == 3 {
            match RandomAddress::try_from_bytes(bytes) {
                Ok(a) => Some(ConnectionPeerAddress::RandomIdentity(a)),
                Err(_) => None,
            }
        } else {
            None
        }
    }

    /// An address has six bytes.
    pub proof fn lemma_spec_value_len(self)
        ensures
            self.spec_value().len() == 6,
    {
        match self {
            ConnectionPeerAddress::PublicDevice(a) => crate::device_address::DeviceAddress::Public(a).lemma_spec_value_len(),
            ConnectionPeerAddress::RandomDevice(a) => crate::device_address::DeviceAddress::Random(a).lemma_spec_value_len(),
            ConnectionPeerAddress::PublicIdentity(a) => crate::device_address::DeviceAddress::Public(a).lemma_spec_value_len(),
            ConnectionPeerAddress::RandomIdentity(a) => crate::device_address::DeviceAddress::Random(a).lemma_spec_value_len(),
        }
    }

    /// Parsing the encoding of a well-formed address gives it back.
    pub proof fn lemma_parse_encode(self)
        requires
            self.wf(),
        ensures
            ConnectionPeerAddress::spec_parse(self.spec_encode()) == Some(self),
    {
        self.lemma_spec_value_len();
        let s = self.spec_encode();
        assert(s.subrange(1, 7) =~= self.spec_value());
        match self {
            ConnectionPeerAddress::PublicDevice(a) => a.lemma_spec_new_spec_value(),
            ConnectionPeerAddress::RandomDevice(a) => a.lemma_try_from_bytes_spec_value(),
            ConnectionPeerAddress::PublicIdentity(a) => a.lemma_spec_new_spec_value(),
            ConnectionPeerAddress::RandomIdentity(a) => a.lemma_try_from_bytes_spec_value(),
        }
    }

    /// An address parsed from bytes is well-formed and encodes to those bytes.
    pub proof fn lemma_encode_parse(s: Seq<u8>)
        ensures
            ConnectionPeerAddress::spec_parse(s) matches Some(a) ==> a.wf() && a.spec_encode() == s,
    {
        if let Some(a) = ConnectionPeerAddress::spec_parse(s) {
            let bytes = s.subrange(1, 7);
            PublicDeviceAddress::lemma_spec_new_value(bytes);
            PublicDeviceAddress::spec_new(bytes).lemma_spec_new_spec_value();
            RandomAddress::lemma_spec_try_from_bytes_value(bytes);
            assert(a.spec_encode() =~= s);
        }
    }
}

impl Default for ConnectionPeerAddress {
    fn default() -> (r: ConnectionPeerAddress)
        ensures
            r is PublicDevice,
            r.spec_value() == seq![0u8, 0u8, 0u8, 0u8, 0u8, 0u8],
            r.wf(),
    {
        let a = PublicDeviceAddress::default();
        proof {
            a.lemma_spec_new_spec_value();
        }
        ConnectionPeerAddress::PublicDevice(a)
    }
}

impl EncodeToBuffer for ConnectionPeerAddress {
    open spec fn spec_encode(&self) -> Seq<u8> {
        seq![self.spec_address_type().spec_to_u8()] + self.spec_value()
    }

    fn encode(&self, buffer: &mut Vec<u8>) -> (n: usize) {
        let ghost start = buffer@;
        self.address_type().encode(buffer);
        match self {
            ConnectionPeerAddress::PublicDevice(a) => a.encode(buffer),
            ConnectionPeerAddress::RandomDevice(a) => a.encode(buffer),
            ConnectionPeerAddress::PublicIdentity(a) => a.encode(buffer),
            ConnectionPeerAddress::RandomIdentity(a) => a.encode(buffer),
        };
        assert(buffer@ =~= start + self.spec_encode());
        proof {
            self.lemma_spec_value_len();
        }
        7
    }

    fn encoded_size(&self) -> (n: usize) {
        proof {
            self.lemma_spec_value_len();
        }
        7
    }
}

impl ConnectionPeerAddressType {
    /// The value of each variant in HCI packets, and the variant each value names.
    pub proof fn lemma_values()
        ensures
            ConnectionPeerAddressType::PublicDevice.spec_to_u8() == 0x00,
            ConnectionPeerAddressType::spec_try_from_u8(0x00) == Ok::<ConnectionPeerAddressType, Error>(ConnectionPeerAddressType::PublicDevice),
            ConnectionPeerAddressType::RandomDevice.spec_to_u8() == 0x01,
            ConnectionPeerAddressType::spec_try_from_u8(0x01) == Ok::<ConnectionPeerAddressType, Error>(ConnectionPeerAddressType::RandomDevice),
            ConnectionPeerAddressType::PublicIdentity.spec_to_u8() == 0x02,
            ConnectionPeerAddressType::spec_try_from_u8(0x02) == Ok::<ConnectionPeerAddressType, Error>(ConnectionPeerAddressType::PublicIdentity),
            ConnectionPeerAddressType::RandomIdentity.spec_to_u8() == 0x03,
            ConnectionPeerAddressType::spec_try_from_u8(0x03) == Ok::<ConnectionPeerAddressType, Error>(ConnectionPeerAddressType::RandomIdentity),
    {
        ConnectionPeerAddressType::PublicDevice.lemma_try_from_to_u8();
        ConnectionPeerAddressType::RandomDevice.lemma_try_from_to_u8();
        ConnectionPeerAddressType::PublicIdentity.lemma_try_from_to_u8();
        ConnectionPeerAddressType::RandomIdentity.lemma_try_from_to_u8();
    }
}

} // verus!
