//! Enable/disable advertising.
use vstd::prelude::*;

use crate::encode::EncodeToBuffer;
use crate::error::Error;

verus! {

/// Enable/disable advertising.
///
/// See Core Specification 6.0, Vol.4, Part E, 7.8.9.
#[derive(Debug, Clone, Copy, PartialEq, Eq, Structural)]
#[non_exhaustive]
pub enum AdvertisingEnable {
    /// Advertising is disabled (default).
    Disabled,
    /// Advertising is enabled.
    Enabled,
}

impl AdvertisingEnable {
    /// The value of this variant in HCI packets.
    pub open spec fn spec_to_u8(self) -> u8 {
        match self {
            AdvertisingEnable::Disabled => 0x00,
            AdvertisingEnable::Enabled => 0x01,
        }
    }

    /// The values that name a variant.
    pub open spec fn spec_is_valid_u8(v: u8) -> bool {
        v <= 0x01
    }

    /// The variant named by `v`, or the error reporting that `v` names none.
    pub open spec fn spec_try_from_u8(v: u8) -> Result<AdvertisingEnable, Error> {
        if AdvertisingEnable::spec_is_valid_u8(v) {
            Ok(choose|e: AdvertisingEnable| e.spec_to_u8() == v)
        } else {
            Err(Error::InvalidAdvertisingEnableValue(v))
        }
    }

    /// The value of this variant in HCI packets.
    pub fn to_u8(self) -> (r: u8)
        ensures
            r == self.spec_to_u8(),
    {
        match self {
            AdvertisingEnable::Disabled => 0x00,
            AdvertisingEnable::Enabled => 0x01,
        }
    }

    /// Converts a value of an HCI packet into a variant.
    pub fn try_from_u8(v: u8) -> (r: Result<AdvertisingEnable, Error>)
        ensures
            r == AdvertisingEnable::spec_try_from_u8(v),
            r is Ok <==> AdvertisingEnable::spec_is_valid_u8(v),
            r matches Ok(e) ==> e.spec_to_u8() == v,
            r is Err ==> r == Err::<AdvertisingEnable, Error>(Error::InvalidAdvertisingEnableValue(v)),
    {
        let r = match v {
            0x00 => Ok(AdvertisingEnable::Disabled),
            0x01 => Ok(AdvertisingEnable::Enabled),
            _ => Err(Error::InvalidAdvertisingEnableValue(v)),
        };
        proof {
            if let Ok(e) = r {
                AdvertisingEnable::lemma_to_u8_injective(e, choose|d: AdvertisingEnable| d.spec_to_u8() == v);
            }
        }
        r
    }

    /// Distinct variants have distinct values.
    pub proof fn lemma_to_u8_injective(a: AdvertisingEnable, b: AdvertisingEnable)
        ensures
            a.spec_to_u8() == b.spec_to_u8() ==> a == b,
    {
    }

    /// A value that names a variant names a variant with that value.
    pub proof fn lemma_try_from_u8_to_u8(v: u8)
        requires
            AdvertisingEnable::spec_is_valid_u8(v),
        ensures
            AdvertisingEnable::spec_try_from_u8(v) is Ok,
            (AdvertisingEnable::spec_try_from_u8(v)->Ok_0).spec_to_u8() == v,
    {
        if v == 0x00 {
            assert(AdvertisingEnable::Disabled.spec_to_u8() == v);
        } else if v == 0x01 {
            assert(AdvertisingEnable::Enabled.spec_to_u8() == v);
        }
    }

    /// Converting the value of a variant gives the variant back.
    pub proof fn lemma_try_from_to_u8(self)
        ensures
            AdvertisingEnable::spec_try_from_u8(self.spec_to_u8()) == Ok::<AdvertisingEnable, Error>(self),
    {
        AdvertisingEnable::lemma_to_u8_injective(self, choose|d: AdvertisingEnable| d.spec_to_u8() == self.spec_to_u8());
    }
}

impl Default for AdvertisingEnable {
    fn default() -> (r: AdvertisingEnable)
        ensures
            r == AdvertisingEnable::Disabled,
    {
        AdvertisingEnable::Disabled
    }
}

impl TryFrom<u8> for AdvertisingEnable {
    type Error = Error;

    fn try_from(value: u8) -> Result<AdvertisingEnable, Error> {
        AdvertisingEnable::try_from_u8(value)
    }
}

impl vstd::std_specs::convert::TryFromSpecImpl<u8> for AdvertisingEnable {
    open spec fn obeys_try_from_spec() -> bool {
        true
    }

    open spec fn try_from_spec(v: u8) -> Result<AdvertisingEnable, Error> {
        AdvertisingEnable::spec_try_from_u8(v)
    }
}

impl From<AdvertisingEnable> for u8 {
    fn from(value: AdvertisingEnable) -> u8 {
        value.to_u8()
    }
}

impl vstd::std_specs::convert::FromSpecImpl<AdvertisingEnable> for u8 {
    open spec fn obeys_from_spec() -> bool {
        true
    }

    open spec fn from_spec(v: AdvertisingEnable) -> u8 {
        v.spec_to_u8()
    }
}

impl EncodeToBuffer for AdvertisingEnable {
    open spec fn spec_encode(&self) -> Seq<u8> {
        seq![self.spec_to_u8()]
    }

    fn encode(&self, buffer: &mut Vec<u8>) -> (n: usize) {
        buffer.push(self.to_u8());
        1
    }

    fn encoded_size(&self) -> (n: usize) {
        1
    }
}

impl AdvertisingEnable {
    /// The value of each variant in HCI packets, and the variant each value names.
    pub proof fn lemma_values()
        ensures
            AdvertisingEnable::Disabled.spec_to_u8() == 0x00,
            AdvertisingEnable::spec_try_from_u8(0x00) == Ok::<AdvertisingEnable, Error>(AdvertisingEnable::Disabled),
            AdvertisingEnable::Enabled.spec_to_u8() == 0x01,
            AdvertisingEnable::spec_try_from_u8(0x01) == Ok::<AdvertisingEnable, Error>(AdvertisingEnable::Enabled),
    {
        AdvertisingEnable::Disabled.lemma_try_from_to_u8();
        AdvertisingEnable::Enabled.lemma_try_from_to_u8();
    }
}

} // verus!
