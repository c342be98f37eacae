//! Addresses of LE Filter Accept List Add/Remove commands.
use vstd::prelude::*;

use crate::bytes::{push_array6, read_array6};
use crate::device_address::{DeviceAddress, PublicDeviceAddress, RandomAddress};
use crate::encode::EncodeToBuffer;
use crate::error::Error;

verus! {

/// Address type contained in a LE Filter Accept List Add/Remove command.
///
/// See Core Specification 6.0, Vol.4, Part E, 7.8.16 and 7.8.17.
#[derive(Debug, Clone, Copy, PartialEq, Eq, Structural)]
#[non_exhaustive]
pub enum LeFilterAcceptListAddressType {
    /// Public device address.
    PublicDevice,
    /// Random device address.
    RandomDevice,
    /// Devices sending anonymous advertisements.
    Anonymous,
}

impl LeFilterAcceptListAddressType {
    /// The value of this variant in HCI packets.
    pub open spec fn spec_to_u8(self) -> u8 {
        match self {
            LeFilterAcceptListAddressType::PublicDevice => 0x00,
            LeFilterAcceptListAddressType::RandomDevice => 0x01,
            LeFilterAcceptListAddressType::Anonymous => 0xFF,
        }
    }

    /// The values that name a variant.
    pub open spec fn spec_is_valid_u8(v: u8) -> bool {
        v == 0x00 || v == 0x01 || v == 0xFF
    }

    /// The variant named by `v`, or the error reporting that `v` names none.
    pub open spec fn spec_try_from_u8(v: u8) -> Result<LeFilterAcceptListAddressType, Error> {
        if LeFilterAcceptListAddressType::spec_is_valid_u8(v) {
            Ok(choose|e: LeFilterAcceptListAddressType| e.spec_to_u8() == v)
        } else {
            Err(Error::InvalidLeFilterAcceptListAddressType(v))
        }
    }

    /// The value of this variant in HCI packets.
    pub fn to_u8(self) -> (r: u8)
        ensures
            r == self.spec_to_u8(),
    {
        match self {
            LeFilterAcceptListAddressType::PublicDevice => 0x00,
            LeFilterAcceptListAddressType::RandomDevice => 0x01,
            LeFilterAcceptListAddressType::Anonymous => 0xFF,
        }
    }

    /// Converts a value of an HCI packet into a variant.
    pub fn try_from_u8(v: u8) -> (r: Result<LeFilterAcceptListAddressType, Error>)
        ensures
            r == LeFilterAcceptListAddressType::spec_try_from_u8(v),
            r is Ok <==> LeFilterAcceptListAddressType::spec_is_valid_u8(v),
            r matches Ok(e) ==> e.spec_to_u8() == v,
            r is Err ==> r == Err::<LeFilterAcceptListAddressType, Error>(Error::InvalidLeFilterAcceptListAddressType(v)),
    {
        let r = match v {
            0x00 => Ok(LeFilterAcceptListAddressType::PublicDevice),
            0x01 => Ok(LeFilterAcceptListAddressType::RandomDevice),
            0xFF => Ok(LeFilterAcceptListAddressType::Anonymous),
            _ => Err(Error::InvalidLeFilterAcceptListAddressType(v)),
        };
        proof {
            if let Ok(e) = r {
                LeFilterAcceptListAddressType::lemma_to_u8_injective(e, choose|d: LeFilterAcceptListAddressType| d.spec_to_u8() == v);
            }
        }
        r
    }

    /// Distinct variants have distinct values.
    pub proof fn lemma_to_u8_injective(a: LeFilterAcceptListAddressType, b: LeFilterAcceptListAddressType)
        ensures
            a.spec_to_u8() == b.spec_to_u8() ==> a == b,
    {
    }

    /// A value that names a variant names a variant with that value.
    pub proof fn lemma_try_from_u8_to_u8(v: u8)
        requires
            LeFilterAcceptListAddressType::spec_is_valid_u8(v),
        ensures
            LeFilterAcceptListAddressType::spec_try_from_u8(v) is Ok,
            (LeFilterAcceptListAddressType::spec_try_from_u8(v)->Ok_0).spec_to_u8() == v,
    {
        if v == 0x00 {
            assert(LeFilterAcceptListAddressType::PublicDevice.spec_to_u8() == v);
        } else if v == 0x01 {
            assert(LeFilterAcceptListAddressType::RandomDevice.spec_to_u8() == v);
        } else if v == 0xFF {
            assert(LeFilterAcceptListAddressType::Anonymous.spec_to_u8() == v);
        }
    }

    /// Converting the value of a variant gives the variant back.
    pub proof fn lemma_try_from_to_u8(self)
        ensures
            LeFilterAcceptListAddressType::spec_try_from_u8(self.spec_to_u8()) == Ok::<LeFilterAcceptListAddressType, Error>(self),
    {
        LeFilterAcceptListAddressType::lemma_to_u8_injective(self, choose|d: LeFilterAcceptListAddressType| d.spec_to_u8() == self.spec_to_u8());
    }
}

impl TryFrom<u8> for LeFilterAcceptListAddressType {
    type Error = Error;

    fn try_from(value: u8) -> Result<LeFilterAcceptListAddressType, Error> {
        LeFilterAcceptListAddressType::try_from_u8(value)
    }
}

impl vstd::std_specs::convert::TryFromSpecImpl<u8> for LeFilterAcceptListAddressType {
    open spec fn obeys_try_from_spec() -> bool {
        true
    }

    open spec fn try_from_spec(v: u8) -> Result<LeFilterAcceptListAddressType, Error> {
        LeFilterAcceptListAddressType::spec_try_from_u8(v)
    }
}

impl From<LeFilterAcceptListAddressType> for u8 {
    fn from(value: LeFilterAcceptListAddressType) -> u8 {
        value.to_u8()
    }
}

impl vstd::std_specs::convert::FromSpecImpl<LeFilterAcceptListAddressType> for u8 {
    open spec fn obeys_from_spec() -> bool {
        true
    }

    open spec fn from_spec(v: LeFilterAcceptListAddressType) -> u8 {
        v.spec_to_u8()
    }
}

impl EncodeToBuffer for LeFilterAcceptListAddressType {
    open spec fn spec_encode(&self) -> Seq<u8> {
        seq![self.spec_to_u8()]
    }

    fn encode(&self, buffer: &mut Vec<u8>) -> (n: usize) {
        buffer.push(self.to_u8());
        1
    }

    fn encoded_size(&self) -> (n: usize) {
        1
    }
}

/// Address contained in a LE Filter Accept List Add/Remove command.
///
/// See Core Specification 6.0, Vol.4, Part E, 7.8.16 and 7.8.17.
#[derive(Debug, Clone, Copy, PartialEq, Eq)]
pub enum LeFilterAcceptListAddress {
    PublicDevice(PublicDeviceAddress),
    RandomDevice(RandomAddress),
    Anonymous,
}

impl LeFilterAcceptListAddress {
    /// The type of the address.
    pub open spec fn spec_address_type(self) -> LeFilterAcceptListAddressType {
        match self {
            LeFilterAcceptListAddress::PublicDevice(_) => LeFilterAcceptListAddressType::PublicDevice,
            LeFilterAcceptListAddress::RandomDevice(_) => LeFilterAcceptListAddressType::RandomDevice,
            LeFilterAcceptListAddress::Anonymous => LeFilterAcceptListAddressType::Anonymous,
        }
    }

    /// The six bytes of the address: all zero for anonymous advertisers.
    pub open spec fn spec_value(self) -> Seq<u8> {
        match self {
            LeFilterAcceptListAddress::PublicDevice(a) => a.spec_value(),
            LeFilterAcceptListAddress::RandomDevice(a) => a.spec_value(),
            LeFilterAcceptListAddress::Anonymous => seq![0u8, 0u8, 0u8, 0u8, 0u8, 0u8],
        }
    }

    /// Well-formedness: a random address follows the rules of its subtype.
    pub open spec fn wf(self) -> bool {
        match self {
            LeFilterAcceptListAddress::PublicDevice(a) => a.wf(),
            LeFilterAcceptListAddress::RandomDevice(a) => a.wf(),
            LeFilterAcceptListAddress::Anonymous => true,
        }
    }

    /// The type of the address.
    pub fn address_type(&self) -> (r: LeFilterAcceptListAddressType)
        ensures
            r == self.spec_address_type(),
    {
        match self {
            LeFilterAcceptListAddress::PublicDevice(_) => LeFilterAcceptListAddressType::PublicDevice,
            LeFilterAcceptListAddress::RandomDevice(_) => LeFilterAcceptListAddressType::RandomDevice,
            LeFilterAcceptListAddress::Anonymous => LeFilterAcceptListAddressType::Anonymous,
        }
    }

    /// The six bytes of the address: all zero for anonymous advertisers.
    pub fn value(&self) -> (r: [u8; 6])
        ensures
            r@ == self.spec_value(),
    {
        match self {
            LeFilterAcceptListAddress::PublicDevice(a) => *a.value(),
            LeFilterAcceptListAddress::RandomDevice(a) => *a.value(),
            LeFilterAcceptListAddress::Anonymous => {
                let r = [0u8, 0u8, 0u8, 0u8, 0u8, 0u8];
                assert(r@ =~= seq![0u8, 0u8, 0u8, 0u8, 0u8, 0u8]);
                r
            },
        }
    }

    /// An address has six bytes.
    pub proof fn lemma_spec_value_len(self)
        ensures
            self.spec_value().len() == 6,
    {
        match self {
            LeFilterAcceptListAddress::PublicDevice(a) => DeviceAddress::Public(a).lemma_spec_value_len(),
            LeFilterAcceptListAddress::RandomDevice(a) => DeviceAddress::Random(a).lemma_spec_value_len(),
            LeFilterAcceptListAddress::Anonymous => {},
        }
    }

    /// The address held by seven bytes: a type byte (0, 1 or 0xFF) and six address bytes, which
    /// for a random address follow the rules of their subtype and are ignored for anonymous
    /// advertisers.
    pub open spec fn spec_parse(s: Seq<u8>) -> Option<LeFilterAcceptListAddress> {
        let bytes = s.subrange(1, 7);
        if s.len() != 7 {
            None
        } else if s[0] == 0 {
            Some(LeFilterAcceptListAddress::PublicDevice(PublicDeviceAddress::spec_new(bytes)))
        } else if s[0] == 1 {
            match RandomAddress::spec_try_from_bytes(bytes) {
                Ok(a) => Some(LeFilterAcceptListAddress::RandomDevice(a)),
                Err(_) => None,
            }
        } else if s[0] == 0xFF {
            Some(LeFilterAcceptListAddress::Anonymous)
        } else {
            None
        }
    }

    /// Parses exactly seven bytes.
    pub fn parse(input: &[u8]) -> (r: Option<LeFilterAcceptListAddress>)
        ensures
            r == LeFilterAcceptListAddress::spec_parse(input@),
    {
        if input.len() != 7 {
            return None;
        }
        let kind = input[0];
        let bytes = read_array6(input, 1);
        if kind == 0 {
            Some(LeFilterAcceptListAddress::PublicDevice(PublicDeviceAddress::new(bytes)))
        } else if kind == 1 {
            match RandomAddress::try_from_bytes(bytes) {
                Ok(a) => Some(LeFilterAcceptListAddress::RandomDevice(a)),
                Err(_) => None,
            }
        } else if kind == 0xFF {
            Some(LeFilterAcceptListAddress::Anonymous)
        } else {
            None
        }
    }

    /// Parsing the encoding of a well-formed address gives it back.
    pub proof fn lemma_parse_encode(self)
        requires
            self.wf(),
        ensures
            LeFilterAcceptListAddress::spec_parse(self.spec_encode()) == Some(self),
    {
        self.lemma_spec_value_len();
        let s = self.spec_encode();
        assert(s.subrange(1, 7) =~= self.spec_value());
        match self {
            LeFilterAcceptListAddress::PublicDevice(a) => a.lemma_spec_new_spec_value(),
            LeFilterAcceptListAddress::RandomDevice(a) => a.lemma_try_from_bytes_spec_value(),
            LeFilterAcceptListAddress::Anonymous => {},
        }
    }

    /// An address parsed from bytes is well-formed, and encodes to those bytes unless it is the
    /// anonymous address, whose six ignored bytes encode as zeros.
    pub proof fn lemma_encode_parse(s: Seq<u8>)
        ensures
            LeFilterAcceptListAddress::spec_parse(s) matches Some(a) ==> {
                &&& a.wf()
                &&& a.spec_encode() == s || (a is Anonymous && a.spec_encode() == seq![0xFFu8] + seq![0u8, 0u8, 0u8, 0u8, 0u8, 0u8])
            },
    {
        if let Some(a) = LeFilterAcceptListAddress::spec_parse(s) {
            let bytes = s.subrange(1, 7);
            PublicDeviceAddress::lemma_spec_new_value(bytes);
            PublicDeviceAddress::spec_new(bytes).lemma_spec_new_spec_value();
            RandomAddress::lemma_spec_try_from_bytes_value(bytes);
            if !(a is Anonymous) {
                assert(a.spec_encode() =~= s);
            }
        }
    }
}

impl From<DeviceAddress> for LeFilterAcceptListAddress {
    fn from(value: DeviceAddress) -> LeFilterAcceptListAddress {
        match value {
            DeviceAddress::Public(a) => LeFilterAcceptListAddress::PublicDevice(a),
            DeviceAddress::Random(a) => LeFilterAcceptListAddress::RandomDevice(a),
        }
    }
}

impl vstd::std_specs::convert::FromSpecImpl<DeviceAddress> for LeFilterAcceptListAddress {
    open spec fn obeys_from_spec() -> bool {
        true
    }

    open spec fn from_spec(v: DeviceAddress) -> LeFilterAcceptListAddress {
        match v {
            DeviceAddress::Public(a) => LeFilterAcceptListAddress::PublicDevice(a),
            DeviceAddress::Random(a) => LeFilterAcceptListAddress::RandomDevice(a),
        }
    }
}

impl From<PublicDeviceAddress> for LeFilterAcceptListAddress {
    fn from(value: PublicDeviceAddress) -> LeFilterAcceptListAddress {
        LeFilterAcceptListAddress::PublicDevice(value)
    }
}

impl vstd::std_specs::convert::FromSpecImpl<PublicDeviceAddress> for LeFilterAcceptListAddress {
    open spec fn obeys_from_spec() -> bool {
        true
    }

    open spec fn from_spec(v: PublicDeviceAddress) -> LeFilterAcceptListAddress {
        LeFilterAcceptListAddress::PublicDevice(v)
    }
}

impl From<RandomAddress> for LeFilterAcceptListAddress {
    fn from(value: RandomAddress) -> LeFilterAcceptListAddress {
        LeFilterAcceptListAddress::RandomDevice(value)
    }
}

impl vstd::std_specs::convert::FromSpecImpl<RandomAddress> for LeFilterAcceptListAddress {
    open spec fn obeys_from_spec() -> bool {
        true
    }

    open spec fn from_spec(v: RandomAddress) -> LeFilterAcceptListAddress {
        LeFilterAcceptListAddress::RandomDevice(v)
    }
}

impl EncodeToBuffer for LeFilterAcceptListAddress {
    open spec fn spec_encode(&self) -> Seq<u8> {
        seq![self.spec_address_type().spec_to_u8()] + self.spec_value()
    }

    fn encode(&self, buffer: &mut Vec<u8>) -> (n: usize) {
        let ghost start = buffer@;
        self.address_type().encode(buffer);
        let value = self.value();
        push_array6(buffer, &value);
        assert(buffer@ =~= start + self.spec_encode());
        proof {
            self.lemma_spec_value_len();
        }
        7
    }

    fn encoded_size(&self) -> (n: usize) {
        proof {
            self.lemma_spec_value_len();
        }
        7
    }
}

impl LeFilterAcceptListAddressType {
    /// The value of each variant in HCI packets, and the variant each value names.
    pub proof fn lemma_values()
        ensures
            LeFilterAcceptListAddressType::PublicDevice.spec_to_u8() == 0x00,
            LeFilterAcceptListAddressType::spec_try_from_u8(0x00) == Ok::<LeFilterAcceptListAddressType, Error>(LeFilterAcceptListAddressType::PublicDevice),
            LeFilterAcceptListAddressType::RandomDevice.spec_to_u8() == 0x01,
            LeFilterAcceptListAddressType::spec_try_from_u8(0x01) == Ok::<LeFilterAcceptListAddressType, Error>(LeFilterAcceptListAddressType::RandomDevice),
            LeFilterAcceptListAddressType::Anonymous.spec_to_u8() == 0xFF,
            LeFilterAcceptListAddressType::spec_try_from_u8(0xFF) == Ok::<LeFilterAcceptListAddressType, Error>(LeFilterAcceptListAddressType::Anonymous),
    {
        LeFilterAcceptListAddressType::PublicDevice.lemma_try_from_to_u8();
        LeFilterAcceptListAddressType::RandomDevice.lemma_try_from_to_u8();
        LeFilterAcceptListAddressType::Anonymous.lemma_try_from_to_u8();
    }
}

} // verus!
