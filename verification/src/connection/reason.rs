//! HCI disconnection reason.
use vstd::prelude::*;

use crate::encode::EncodeToBuffer;
use crate::error::Error;

verus! {

/// HCI disconnection reason.
///
/// See Core Specification 6.0, Vol.4, Part E, 7.1.6.
#[derive(Debug, Clone, Copy, PartialEq, Eq, Structural)]
#[non_exhaustive]
pub enum Reason {
    /// Pairing or authentication failed due to incorrect results in the pairing or authentication procedure.
    AuthenticationFailure,
    /// The user on the remote device either terminated the connection or stopped broadcasting packets.
    RemoteUserTerminatedConnection,
    /// The remote device terminated the connection because of low resources.
    RemoteDeviceTerminatedConnectionDueToLowResources,
    /// The remote device terminated the connection because the device is about to power off.
    RemoteDeviceTerminatedConnectionDueToPowerOff,
    /// The remote device does not support the feature associated with the issued command, LMP PDU, or Link Layer Control PDU.
    UnsupportedRemoteFeatureUnsupportedLmpFeature,
    /// It was not possible to pair as a unit key was requested, and it is not supported.
    PairingWithUnitKeyNotSupported,
    /// The remote device either terminated the connection or rejected a request because of one or more unacceptable connection parameters.
    UnacceptableConnectionParameters,
}

impl Reason {
    /// The value of this variant in HCI packets.
    pub open spec fn spec_to_u8(self) -> u8 {
        match self {
            Reason::AuthenticationFailure => 0x05,
            Reason::RemoteUserTerminatedConnection => 0x13,
            Reason::RemoteDeviceTerminatedConnectionDueToLowResources => 0x14,
            Reason::RemoteDeviceTerminatedConnectionDueToPowerOff => 0x15,
            Reason::UnsupportedRemoteFeatureUnsupportedLmpFeature => 0x1A,
            Reason::PairingWithUnitKeyNotSupported => 0x29,
            Reason::UnacceptableConnectionParameters => 0x3B,
        }
    }

    /// The values that name a variant.
    pub open spec fn spec_is_valid_u8(v: u8) -> bool {
        v == 0x05 || v == 0x13 || v == 0x14 || v == 0x15 || v == 0x1A || v == 0x29 || v == 0x3B
    }

    /// The variant named by `v`, or the error reporting that `v` names none.
    pub open spec fn spec_try_from_u8(v: u8) -> Result<Reason, Error> {
        if Reason::spec_is_valid_u8(v) {
            Ok(choose|e: Reason| e.spec_to_u8() == v)
        } else {
            Err(Error::InvalidReason(v))
        }
    }

    /// The value of this variant in HCI packets.
    pub fn to_u8(self) -> (r: u8)
        ensures
            r == self.spec_to_u8(),
    {
        match self {
            Reason::AuthenticationFailure => 0x05,
            Reason::RemoteUserTerminatedConnection => 0x13,
            Reason::RemoteDeviceTerminatedConnectionDueToLowResources => 0x14,
            Reason::RemoteDeviceTerminatedConnectionDueToPowerOff => 0x15,
            Reason::UnsupportedRemoteFeatureUnsupportedLmpFeature => 0x1A,
            Reason::PairingWithUnitKeyNotSupported => 0x29,
            Reason::UnacceptableConnectionParameters => 0x3B,
        }
    }

    /// Converts a value of an HCI packet into a variant.
    pub fn try_from_u8(v: u8) -> (r: Result<Reason, Error>)
        ensures
            r == Reason::spec_try_from_u8(v),
            r is Ok <==> Reason::spec_is_valid_u8(v),
            r matches Ok(e) ==> e.spec_to_u8() == v,
            r is Err ==> r == Err::<Reason, Error>(Error::InvalidReason(v)),
    {
        let r = match v {
            0x05 => Ok(Reason::AuthenticationFailure),
            0x13 => Ok(Reason::RemoteUserTerminatedConnection),
            0x14 => Ok(Reason::RemoteDeviceTerminatedConnectionDueToLowResources),
            0x15 => Ok(Reason::RemoteDeviceTerminatedConnectionDueToPowerOff),
            0x1A => Ok(Reason::UnsupportedRemoteFeatureUnsupportedLmpFeature),
            0x29 => Ok(Reason::PairingWithUnitKeyNotSupported),
            0x3B => Ok(Reason::UnacceptableConnectionParameters),
            _ => Err(Error::InvalidReason(v)),
        };
        proof {
            if let Ok(e) = r {
                Reason::lemma_to_u8_injective(e, choose|d: Reason| d.spec_to_u8() == v);
            }
        }
        r
    }

    /// Distinct variants have distinct values.
    pub proof fn lemma_to_u8_injective(a: Reason, b: Reason)
        ensures
            a.spec_to_u8() == b.spec_to_u8() ==> a == b,
    {
    }

    /// A value that names a variant names a variant with that value.
    pub proof fn lemma_try_from_u8_to_u8(v: u8)
        requires
            Reason::spec_is_valid_u8(v),
        ensures
            Reason::spec_try_from_u8(v) is Ok,
            (Reason::spec_try_from_u8(v)->Ok_0).spec_to_u8() == v,
    {
        if v == 0x05 {
            assert(Reason::AuthenticationFailure.spec_to_u8() == v);
        } else if v == 0x13 {
            assert(Reason::RemoteUserTerminatedConnection.spec_to_u8() == v);
        } else if v == 0x14 {
            assert(Reason::RemoteDeviceTerminatedConnectionDueToLowResources.spec_to_u8() == v);
        } else if v == 0x15 {
            assert(Reason::RemoteDeviceTerminatedConnectionDueToPowerOff.spec_to_u8() == v);
        } else if v == 0x1A {
            assert(Reason::UnsupportedRemoteFeatureUnsupportedLmpFeature.spec_to_u8() == v);
        } else if v == 0x29 {
            assert(Reason::PairingWithUnitKeyNotSupported.spec_to_u8() == v);
        } else if v == 0x3B {
            assert(Reason::UnacceptableConnectionParameters.spec_to_u8() == v);
        }
    }

    /// Converting the value of a variant gives the variant back.
    pub proof fn lemma_try_from_to_u8(self)
        ensures
            Reason::spec_try_from_u8(self.spec_to_u8()) == Ok::<Reason, Error>(self),
    {
        Reason::lemma_to_u8_injective(self, choose|d: Reason| d.spec_to_u8() == self.spec_to_u8());
    }
}

impl TryFrom<u8> for Reason {
    type Error = Error;

    fn try_from(value: u8) -> Result<Reason, Error> {
        Reason::try_from_u8(value)
    }
}

impl vstd::std_specs::convert::TryFromSpecImpl<u8> for Reason {
    open spec fn obeys_try_from_spec() -> bool {
        true
    }

    open spec fn try_from_spec(v: u8) -> Result<Reason, Error> {
        Reason::spec_try_from_u8(v)
    }
}

impl From<Reason> for u8 {
    fn from(value: Reason) -> u8 {
        value.to_u8()
    }
}

impl vstd::std_specs::convert::FromSpecImpl<Reason> for u8 {
    open spec fn obeys_from_spec() -> bool {
        true
    }

    open spec fn from_spec(v: Reason) -> u8 {
        v.spec_to_u8()
    }
}

impl EncodeToBuffer for Reason {
    open spec fn spec_encode(&self) -> Seq<u8> {
        seq![self.spec_to_u8()]
    }

    fn encode(&self, buffer: &mut Vec<u8>) -> (n: usize) {
        buffer.push(self.to_u8());
        1
    }

    fn encoded_size(&self) -> (n: usize) {
        1
    }
}

impl Reason {
    /// The value of each variant in HCI packets, and the variant each value names.
    pub proof fn lemma_values()
        ensures
            Reason::AuthenticationFailure.spec_to_u8() == 0x05,
            Reason::spec_try_from_u8(0x05) == Ok::<Reason, Error>(Reason::AuthenticationFailure),
            Reason::RemoteUserTerminatedConnection.spec_to_u8() == 0x13,
            Reason::spec_try_from_u8(0x13) == Ok::<Reason, Error>(Reason::RemoteUserTerminatedConnection),
            Reason::RemoteDeviceTerminatedConnectionDueToLowResources.spec_to_u8() == 0x14,
            Reason::spec_try_from_u8(0x14) == Ok::<Reason, Error>(Reason::RemoteDeviceTerminatedConnectionDueToLowResources),
            Reason::RemoteDeviceTerminatedConnectionDueToPowerOff.spec_to_u8() == 0x15,
            Reason::spec_try_from_u8(0x15) == Ok::<Reason, Error>(Reason::RemoteDeviceTerminatedConnectionDueToPowerOff),
            Reason::UnsupportedRemoteFeatureUnsupportedLmpFeature.spec_to_u8() == 0x1A,
            Reason::spec_try_from_u8(0x1A) == Ok::<Reason, Error>(Reason::UnsupportedRemoteFeatureUnsupportedLmpFeature),
            Reason::PairingWithUnitKeyNotSupported.spec_to_u8() == 0x29,
            Reason::spec_try_from_u8(0x29) == Ok::<Reason, Error>(Reason::PairingWithUnitKeyNotSupported),
            Reason::UnacceptableConnectionParameters.spec_to_u8() == 0x3B,
            Reason::spec_try_from_u8(0x3B) == Ok::<Reason, Error>(Reason::UnacceptableConnectionParameters),
    {
        Reason::AuthenticationFailure.lemma_try_from_to_u8();
        Reason::RemoteUserTerminatedConnection.lemma_try_from_to_u8();
        Reason::RemoteDeviceTerminatedConnectionDueToLowResources.lemma_try_from_to_u8();
        Reason::RemoteDeviceTerminatedConnectionDueToPowerOff.lemma_try_from_to_u8();
        Reason::UnsupportedRemoteFeatureUnsupportedLmpFeature.lemma_try_from_to_u8();
        Reason::PairingWithUnitKeyNotSupported.lemma_try_from_to_u8();
        Reason::UnacceptableConnectionParameters.lemma_try_from_to_u8();
    }
}

} // verus!
