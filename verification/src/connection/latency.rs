//! Peripheral latency.
use vstd::prelude::*;

use crate::bytes::{push_u16_le, spec_u16_le_bytes};
use crate::encode::EncodeToBuffer;
use crate::error::Error;

verus! {

/// Peripheral Latency for the connection in number of connection events.
///
/// Range: 0x0000 to 0x01F3
///
/// See Core Specification 6.0, Vol.4, Part E, 7.8.12.
#[derive(Debug, Clone, Copy, PartialEq, Eq, Structural, PartialOrd, Ord)]
pub struct Latency {
    value: u16,
}

impl Latency {
    /// The values accepted by `try_new`.
    pub open spec fn spec_is_valid(value: u16) -> bool {
        value <= 0x01F3
    }

    /// The raw value.
    pub closed spec fn spec_value(self) -> u16 {
        self.value
    }

    /// Well-formedness: the raw value is in the valid range.
    pub open spec fn wf(self) -> bool {
        Latency::spec_is_valid(self.spec_value())
    }

    /// The outcome of `try_new`.
    pub closed spec fn spec_try_new(value: u16) -> Result<Latency, Error> {
        if Latency::spec_is_valid(value) {
            Ok(Latency { value })
        } else {
            Err(Error::InvalidLatency(value))
        }
    }

    /// Creates a valid value, checking its range.
    pub fn try_new(value: u16) -> (r: Result<Latency, Error>)
        ensures
            r == Latency::spec_try_new(value),
            r is Ok <==> Latency::spec_is_valid(value),
            r matches Ok(v) ==> v.spec_value() == value && v.wf(),
            r is Err ==> r == Err::<Latency, Error>(Error::InvalidLatency(value)),
    {
        if value <= 0x01F3 {
            Ok(Latency { value })
        } else {
            Err(Error::InvalidLatency(value))
        }
    }

    /// The raw value.
    pub fn value(&self) -> (r: u16)
        ensures
            r == self.spec_value(),
    {
        self.value
    }

    /// Values are determined by their raw value.
    pub proof fn lemma_spec_value_injective(a: Latency, b: Latency)
        ensures
            a.spec_value() == b.spec_value() ==> a == b,
    {
    }

    /// The raw value of a value made by `try_new` is the value given.
    pub proof fn lemma_spec_try_new_value(value: u16)
        ensures
            Latency::spec_try_new(value) is Ok <==> Latency::spec_is_valid(value),
            Latency::spec_try_new(value) is Ok ==> (Latency::spec_try_new(value)->Ok_0).spec_value() == value,
            Latency::spec_try_new(value) is Err ==> Latency::spec_try_new(value) == Err::<Latency, Error>(Error::InvalidLatency(value)),
    {
    }

    /// `try_new` of the raw value of a well-formed value gives that value back.
    pub proof fn lemma_try_new_spec_value(self)
        requires
            self.wf(),
        ensures
            Latency::spec_try_new(self.spec_value()) == Ok::<Latency, Error>(self),
    {
    }
}

impl Default for Latency {
    fn default() -> (r: Latency)
        ensures
            r.spec_value() == 0x0000,
            r.wf(),
    {
        Latency { value: 0x0000 }
    }
}

impl TryFrom<u16> for Latency {
    type Error = Error;

    fn try_from(value: u16) -> Result<Latency, Error> {
        Latency::try_new(value)
    }
}

impl vstd::std_specs::convert::TryFromSpecImpl<u16> for Latency {
    open spec fn obeys_try_from_spec() -> bool {
        true
    }

    open spec fn try_from_spec(v: u16) -> Result<Latency, Error> {
        Latency::spec_try_new(v)
    }
}

impl EncodeToBuffer for Latency {
    open spec fn spec_encode(&self) -> Seq<u8> {
        spec_u16_le_bytes(self.spec_value())
    }

    fn encode(&self, buffer: &mut Vec<u8>) -> (n: usize) {
        push_u16_le(buffer, self.value);
        2
    }

    fn encoded_size(&self) -> (n: usize) {
        2
    }
}

} // verus!
