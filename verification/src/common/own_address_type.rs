//! Own address type.
use vstd::prelude::*;

use crate::encode::EncodeToBuffer;
use crate::error::Error;

verus! {

/// Own address type.
///
/// See Core Specification 6.0, Vol.4, Part E, 7.8.5.
#[derive(Debug, Clone, Copy, PartialEq, Eq, Structural)]
#[non_exhaustive]
pub enum OwnAddressType {
    /// Public Device Address (default).
    PublicDeviceAddress,
    /// Random Device Address.
    RandomDeviceAddress,
    /// Controller generates Resolvable Private Address based on the local IRK from the resolving list; if the resolving list contains no matching entry, use the public address.
    GeneratedResolvablePrivateAddressFallbackPublic,
    /// Controller generates Resolvable Private Address based on the local IRK from the resolving list; if the resolving list contains no matching entry, use the random address from `LE_Set_Random_Address`.
    GeneratedResolvablePrivateAddressFallbackRandom,
}

impl OwnAddressType {
    /// The value of this variant in HCI packets.
    pub open spec fn spec_to_u8(self) -> u8 {
        match self {
            OwnAddressType::PublicDeviceAddress => 0x00,
            OwnAddressType::RandomDeviceAddress => 0x01,
            OwnAddressType::GeneratedResolvablePrivateAddressFallbackPublic => 0x02,
            OwnAddressType::GeneratedResolvablePrivateAddressFallbackRandom => 0x03,
        }
    }

    /// The values that name a variant.
    pub open spec fn spec_is_valid_u8(v: u8) -> bool {
        v <= 0x03
    }

    /// The variant named by `v`, or the error reporting that `v` names none.
    pub open spec fn spec_try_from_u8(v: u8) -> Result<OwnAddressType, Error> {
        if OwnAddressType::spec_is_valid_u8(v) {
            Ok(choose|e: OwnAddressType| e.spec_to_u8() == v)
        } else {
            Err(Error::InvalidOwnAddressType(v))
        }
    }

    /// The value of this variant in HCI packets.
    pub fn to_u8(self) -> (r: u8)
        ensures
            r == self.spec_to_u8(),
    {
        match self {
            OwnAddressType::PublicDeviceAddress => 0x00,
            OwnAddressType::RandomDeviceAddress => 0x01,
            OwnAddressType::GeneratedResolvablePrivateAddressFallbackPublic => 0x02,
            OwnAddressType::GeneratedResolvablePrivateAddressFallbackRandom => 0x03,
        }
    }

    /// Converts a value of an HCI packet into a variant.
    pub fn try_from_u8(v: u8) -> (r: Result<OwnAddressType, Error>)
        ensures
            r == OwnAddressType::spec_try_from_u8(v),
            r is Ok <==> OwnAddressType::spec_is_valid_u8(v),
            r matches Ok(e) ==> e.spec_to_u8() == v,
            r is Err ==> r == Err::<OwnAddressType, Error>(Error::InvalidOwnAddressType(v)),
    {
        let r = match v {
            0x00 => Ok(OwnAddressType::PublicDeviceAddress),
            0x01 => Ok(OwnAddressType::RandomDeviceAddress),
            0x02 => Ok(OwnAddressType::GeneratedResolvablePrivateAddressFallbackPublic),
            0x03 => Ok(OwnAddressType::GeneratedResolvablePrivateAddressFallbackRandom),
            _ => Err(Error::InvalidOwnAddressType(v)),
        };
        proof {
            if let Ok(e) = r {
                OwnAddressType::lemma_to_u8_injective(e, choose|d: OwnAddressType| d.spec_to_u8() == v);
            }
        }
        r
    }

    /// Distinct variants have distinct values.
    pub proof fn lemma_to_u8_injective(a: OwnAddressType, b: OwnAddressType)
        ensures
            a.spec_to_u8() == b.spec_to_u8() ==> a == b,
    {
    }

    /// A value that names a variant names a variant with that value.
    pub proof fn lemma_try_from_u8_to_u8(v: u8)
        requires
            OwnAddressType::spec_is_valid_u8(v),
        ensures
            OwnAddressType::spec_try_from_u8(v) is Ok,
            (OwnAddressType::spec_try_from_u8(v)->Ok_0).spec_to_u8() == v,
    {
        if v == 0x00 {
            assert(OwnAddressType::PublicDeviceAddress.spec_to_u8() == v);
        } else if v == 0x01 {
            assert(OwnAddressType::RandomDeviceAddress.spec_to_u8() == v);
        } else if v == 0x02 {
            assert(OwnAddressType::GeneratedResolvablePrivateAddressFallbackPublic.spec_to_u8() == v);
        } else if v == 0x03 {
            assert(OwnAddressType::GeneratedResolvablePrivateAddressFallbackRandom.spec_to_u8() == v);
        }
    }

    /// Converting the value of a variant gives the variant back.
    pub proof fn lemma_try_from_to_u8(self)
        ensures
            OwnAddressType::spec_try_from_u8(self.spec_to_u8()) == Ok::<OwnAddressType, Error>(self),
    {
        OwnAddressType::lemma_to_u8_injective(self, choose|d: OwnAddressType| d.spec_to_u8() == self.spec_to_u8());
    }
}

impl Default for OwnAddressType {
    fn default() -> (r: OwnAddressType)
        ensures
            r == OwnAddressType::PublicDeviceAddress,
    {
        OwnAddressType::PublicDeviceAddress
    }
}

impl TryFrom<u8> for OwnAddressType {
    type Error = Error;

    fn try_from(value: u8) -> Result<OwnAddressType, Error> {
        OwnAddressType::try_from_u8(value)
    }
}

impl vstd::std_specs::convert::TryFromSpecImpl<u8> for OwnAddressType {
    open spec fn obeys_try_from_spec() -> bool {
        true
    }

    open spec fn try_from_spec(v: u8) -> Result<OwnAddressType, Error> {
        OwnAddressType::spec_try_from_u8(v)
    }
}

impl From<OwnAddressType> for u8 {
    fn from(value: OwnAddressType) -> u8 {
        value.to_u8()
    }
}

impl vstd::std_specs::convert::FromSpecImpl<OwnAddressType> for u8 {
    open spec fn obeys_from_spec() -> bool {
        true
    }

    open spec fn from_spec(v: OwnAddressType) -> u8 {
        v.spec_to_u8()
    }
}

impl EncodeToBuffer for OwnAddressType {
    open spec fn spec_encode(&self) -> Seq<u8> {
        seq![self.spec_to_u8()]
    }

    fn encode(&self, buffer: &mut Vec<u8>) -> (n: usize) {
        buffer.push(self.to_u8());
        1
    }

    fn encoded_size(&self) -> (n: usize) {
        1
    }
}

impl OwnAddressType {
    /// The value of each variant in HCI packets, and the variant each value names.
    pub proof fn lemma_values()
        ensures
            OwnAddressType::PublicDeviceAddress.spec_to_u8() == 0x00,
            OwnAddressType::spec_try_from_u8(0x00) == Ok::<OwnAddressType, Error>(OwnAddressType::PublicDeviceAddress),
            OwnAddressType::RandomDeviceAddress.spec_to_u8() == 0x01,
            OwnAddressType::spec_try_from_u8(0x01) == Ok::<OwnAddressType, Error>(OwnAddressType::RandomDeviceAddress),
            OwnAddressType::GeneratedResolvablePrivateAddressFallbackPublic.spec_to_u8() == 0x02,
            OwnAddressType::spec_try_from_u8(0x02) == Ok::<OwnAddressType, Error>(OwnAddressType::GeneratedResolvablePrivateAddressFallbackPublic),
            OwnAddressType::GeneratedResolvablePrivateAddressFallbackRandom.spec_to_u8() == 0x03,
            OwnAddressType::spec_try_from_u8(0x03) == Ok::<OwnAddressType, Error>(OwnAddressType::GeneratedResolvablePrivateAddressFallbackRandom),
    {
        OwnAddressType::PublicDeviceAddress.lemma_try_from_to_u8();
        OwnAddressType::RandomDeviceAddress.lemma_try_from_to_u8();
        OwnAddressType::GeneratedResolvablePrivateAddressFallbackPublic.lemma_try_from_to_u8();
        OwnAddressType::GeneratedResolvablePrivateAddressFallbackRandom.lemma_try_from_to_u8();
    }
}

} // verus!
