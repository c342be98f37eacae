//! Peer address type, and peer addresses as they stand in HCI packets: a type byte followed by
//! the six bytes of the address.
use vstd::prelude::*;

use crate::device_address::{DeviceAddress, PublicDeviceAddress, RandomAddress};
use crate::encode::EncodeToBuffer;
use crate::error::Error;
use crate::bytes::read_array6;

verus! {

/// Peer address type.
///
/// See Core Specification 6.0, Vol.4, Part E, 7.8.5.
#[derive(Debug, Clone, Copy, PartialEq, Eq, Structural)]
#[non_exhaustive]
pub enum PeerAddressType {
    /// Public Device Address (default) or Public Identity Address.
    Public,
    /// Random Device Address or Random (static) Identity Address.
    Random,
}

impl PeerAddressType {
    /// The value of this variant in HCI packets.
    pub open spec fn spec_to_u8(self) -> u8 {
        match self {
            PeerAddressType::Public => 0x00,
            PeerAddressType::Random => 0x01,
        }
    }

    /// The values that name a variant.
    pub open spec fn spec_is_valid_u8(v: u8) -> bool {
        v <= 0x01
    }

    /// The variant named by `v`, or the error reporting that `v` names none.
    pub open spec fn spec_try_from_u8(v: u8) -> Result<PeerAddressType, Error> {
        if PeerAddressType::spec_is_valid_u8(v) {
            Ok(choose|e: PeerAddressType| e.spec_to_u8() == v)
        } else {
            Err(Error::InvalidPeerAddressType(v))
        }
    }

    /// The value of this variant in HCI packets.
    pub fn to_u8(self) -> (r: u8)
        ensures
            r == self.spec_to_u8(),
    {
        match self {
            PeerAddressType::Public => 0x00,
            PeerAddressType::Random => 0x01,
        }
    }

    /// Converts a value of an HCI packet into a variant.
    pub fn try_from_u8(v: u8) -> (r: Result<PeerAddressType, Error>)
        ensures
            r == PeerAddressType::spec_try_from_u8(v),
            r is Ok <==> PeerAddressType::spec_is_valid_u8(v),
            r matches Ok(e) ==> e.spec_to_u8() == v,
            r is Err ==> r == Err::<PeerAddressType, Error>(Error::InvalidPeerAddressType(v)),
    {
        let r = match v {
            0x00 => Ok(PeerAddressType::Public),
            0x01 => Ok(PeerAddressType::Random),
            _ => Err(Error::InvalidPeerAddressType(v)),
        };
        proof {
            if let Ok(e) = r {
                PeerAddressType::lemma_to_u8_injective(e, choose|d: PeerAddressType| d.spec_to_u8() == v);
            }
        }
        r
    }

    /// Distinct variants have distinct values.
    pub proof fn lemma_to_u8_injective(a: PeerAddressType, b: PeerAddressType)
        ensures
            a.spec_to_u8() == b.spec_to_u8() ==> a == b,
    {
    }

    /// A value that names a variant names a variant with that value.
    pub proof fn lemma_try_from_u8_to_u8(v: u8)
        requires
            PeerAddressType::spec_is_valid_u8(v),
        ensures
            PeerAddressType::spec_try_from_u8(v) is Ok,
            (PeerAddressType::spec_try_from_u8(v)->Ok_0).spec_to_u8() == v,
    {
        if v == 0x00 {
            assert(PeerAddressType::Public.spec_to_u8() == v);
        } else if v == 0x01 {
            assert(PeerAddressType::Random.spec_to_u8() == v);
        }
    }

    /// Converting the value of a variant gives the variant back.
    pub proof fn lemma_try_from_to_u8(self)
        ensures
            PeerAddressType::spec_try_from_u8(self.spec_to_u8()) == Ok::<PeerAddressType, Error>(self),
    {
        PeerAddressType::lemma_to_u8_injective(self, choose|d: PeerAddressType| d.spec_to_u8() == self.spec_to_u8());
    }
}

impl Default for PeerAddressType {
    fn default() -> (r: PeerAddressType)
        ensures
            r == PeerAddressType::Public,
    {
        PeerAddressType::Public
    }
}

impl TryFrom<u8> for PeerAddressType {
    type Error = Error;

    fn try_from(value: u8) -> Result<PeerAddressType, Error> {
        PeerAddressType::try_from_u8(value)
    }
}

impl vstd::std_specs::convert::TryFromSpecImpl<u8> for PeerAddressType {
    open spec fn obeys_try_from_spec() -> bool {
        true
    }

    open spec fn try_from_spec(v: u8) -> Result<PeerAddressType, Error> {
        PeerAddressType::spec_try_from_u8(v)
    }
}

impl From<PeerAddressType> for u8 {
    fn from(value: PeerAddressType) -> u8 {
        value.to_u8()
    }
}

impl vstd::std_specs::convert::FromSpecImpl<PeerAddressType> for u8 {
    open spec fn obeys_from_spec() -> bool {
        true
    }

    open spec fn from_spec(v: PeerAddressType) -> u8 {
        v.spec_to_u8()
    }
}

impl EncodeToBuffer for PeerAddressType {
    open spec fn spec_encode(&self) -> Seq<u8> {
        seq![self.spec_to_u8()]
    }

    fn encode(&self, buffer: &mut Vec<u8>) -> (n: usize) {
        buffer.push(self.to_u8());
        1
    }

    fn encoded_size(&self) -> (n: usize) {
        1
    }
}

impl PeerAddressType {
    /// The peer address type of a device address.
    pub open spec fn spec_from_device_address(address: DeviceAddress) -> PeerAddressType {
        match address {
            DeviceAddress::Public(_) => PeerAddressType::Public,
            DeviceAddress::Random(_) => PeerAddressType::Random,
        }
    }

    /// The peer address type of a device address.
    pub fn from_device_address(address: &DeviceAddress) -> (r: PeerAddressType)
        ensures
            r == PeerAddressType::spec_from_device_address(*address),
    {
        match address {
            DeviceAddress::Public(_) => PeerAddressType::Public,
            DeviceAddress::Random(_) => PeerAddressType::Random,
        }
    }
}

impl<'a> From<&'a DeviceAddress> for PeerAddressType {
    fn from(value: &'a DeviceAddress) -> PeerAddressType {
        PeerAddressType::from_device_address(value)
    }
}

impl<'a> vstd::std_specs::convert::FromSpecImpl<&'a DeviceAddress> for PeerAddressType {
    open spec fn obeys_from_spec() -> bool {
        true
    }

    open spec fn from_spec(v: &'a DeviceAddress) -> PeerAddressType {
        PeerAddressType::spec_from_device_address(*v)
    }
}

/// The bytes of a peer address in HCI packets: its type, then its six bytes.
pub open spec fn spec_encode_peer_address(address: DeviceAddress) -> Seq<u8> {
    seq![PeerAddressType::spec_from_device_address(address).spec_to_u8()] + address.spec_value()
}

/// The peer address held by seven bytes: a type byte (0 public, 1 random) and six address bytes,
/// which for a random address follow the rules of their subtype.
pub open spec fn spec_parse_peer_address(s: Seq<u8>) -> Option<DeviceAddress> {
    let bytes = s.subrange(1, 7);
    if s.len() != 7 {
        None
    } else if s[0] == 0 {
        Some(DeviceAddress::Public(PublicDeviceAddress::spec_new(bytes)))
    } else if s[0] == 1 {
        match RandomAddress::spec_try_from_bytes(bytes) {
            Ok(a) => Some(DeviceAddress::Random(a)),
            Err(_) => None,
        }
    } else {
        None
    }
}

/// Appends the type and the bytes of a peer address.
pub fn encode_peer_address(address: &DeviceAddress, buffer: &mut Vec<u8>) -> (n: usize)
    ensures
        final(buffer)@ == old(buffer)@ + spec_encode_peer_address(*address),
        n == 7,
{
    let ghost start = buffer@;
    PeerAddressType::from_device_address(address).encode(buffer);
    address.encode(buffer);
    assert(buffer@ =~= start + spec_encode_peer_address(*address));
    7
}

/// Parses the peer address stored in the seven bytes at `pos`.
pub fn parse_peer_address(input: &[u8], pos: usize) -> (r: Option<DeviceAddress>)
    requires
        pos + 7 <= input@.len(),
    ensures
        r == spec_parse_peer_address(input@.subrange(pos as int, pos + 7)),
{
    let ghost s = input@.subrange(pos as int, pos + 7);
    let kind = input[pos];
    let bytes = read_array6(input, pos + 1);
    assert(bytes@ =~= s.subrange(1, 7));
    if kind == 0 {
        Some(DeviceAddress::Public(PublicDeviceAddress::new(bytes)))
    } else if kind == 1 {
        match RandomAddress::try_from_bytes(bytes) {
            Ok(a) => Some(DeviceAddress::Random(a)),
            Err(_) => None,
        }
    } else {
        None
    }
}

/// Parsing the bytes of a well-formed peer address gives it back.
pub proof fn lemma_parse_encode_peer_address(address: DeviceAddress)
    requires
        address.wf(),
    ensures
        spec_parse_peer_address(spec_encode_peer_address(address)) == Some(address),
{
    let s = spec_encode_peer_address(address);
    assert(s.subrange(1, 7) =~= address.spec_value());
    match address {
        DeviceAddress::Public(a) => a.lemma_spec_new_spec_value(),
        DeviceAddress::Random(a) => a.lemma_try_from_bytes_spec_value(),
    }
}

/// A peer address parsed from bytes is well-formed and its bytes are those bytes.
pub proof fn lemma_encode_parse_peer_address(s: Seq<u8>)
    ensures
        spec_parse_peer_address(s) matches Some(a) ==> a.wf() && spec_encode_peer_address(a) == s,
{
    if let Some(a) = spec_parse_peer_address(s) {
        let bytes = s.subrange(1, 7);
        PublicDeviceAddress::lemma_spec_new_value(bytes);
        RandomAddress::lemma_spec_try_from_bytes_value(bytes);
        if s[0] == 0 {
            PublicDeviceAddress::spec_new(bytes).lemma_spec_new_spec_value();
        }
        assert(spec_encode_peer_address(a) =~= s);
    }
}

impl PeerAddressType {
    /// The value of each variant in HCI packets, and the variant each value names.
    pub proof fn lemma_values()
        ensures
            PeerAddressType::Public.spec_to_u8() == 0x00,
            PeerAddressType::spec_try_from_u8(0x00) == Ok::<PeerAddressType, Error>(PeerAddressType::Public),
            PeerAddressType::Random.spec_to_u8() == 0x01,
            PeerAddressType::spec_try_from_u8(0x01) == Ok::<PeerAddressType, Error>(PeerAddressType::Random),
    {
        PeerAddressType::Public.lemma_try_from_to_u8();
        PeerAddressType::Random.lemma_try_from_to_u8();
    }
}

} // verus!
