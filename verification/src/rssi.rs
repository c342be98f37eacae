//! Received signal strength indication.
use vstd::prelude::*;

use crate::error::Error;

verus! {

/// Received signal strength indication, in dBm.
///
/// Range: -127 to +20.
///
/// See Core Specification 6.0, Vol.4, Part E, 7.7.65.2.
#[derive(Debug, Clone, Copy, PartialEq, Eq, Structural, PartialOrd, Ord)]
pub struct Rssi {
    value: i8,
}

impl Rssi {
    /// The values accepted by `try_new`.
    pub open spec fn spec_is_valid(value: i8) -> bool {
        -127 <= value <= 20
    }

    /// The raw value.
    pub closed spec fn spec_value(self) -> i8 {
        self.value
    }

    /// Well-formedness: the raw value is in the valid range.
    pub open spec fn wf(self) -> bool {
        Rssi::spec_is_valid(self.spec_value())
    }

    /// The outcome of `try_new`.
    pub closed spec fn spec_try_new(value: i8) -> Result<Rssi, Error> {
        if Rssi::spec_is_valid(value) {
            Ok(Rssi { value })
        } else {
            Err(Error::InvalidRssiValue(value))
        }
    }

    /// Creates a valid value, checking its range.
    pub fn try_new(value: i8) -> (r: Result<Rssi, Error>)
        ensures
            r == Rssi::spec_try_new(value),
            r is Ok <==> Rssi::spec_is_valid(value),
            r matches Ok(v) ==> v.spec_value() == value && v.wf(),
            r is Err ==> r == Err::<Rssi, Error>(Error::InvalidRssiValue(value)),
    {
        if -127 <= value && value <= 20 {
            Ok(Rssi { value })
        } else {
            Err(Error::InvalidRssiValue(value))
        }
    }

    /// The raw value.
    pub fn value(&self) -> (r: i8)
        ensures
            r == self.spec_value(),
    {
        self.value
    }

    /// Values are determined by their raw value.
    pub proof fn lemma_spec_value_injective(a: Rssi, b: Rssi)
        ensures
            a.spec_value() == b.spec_value() ==> a == b,
    {
    }

    /// The raw value of a value made by `try_new` is the value given.
    pub proof fn lemma_spec_try_new_value(value: i8)
        ensures
            Rssi::spec_try_new(value) is Ok <==> Rssi::spec_is_valid(value),
            Rssi::spec_try_new(value) is Ok ==> (Rssi::spec_try_new(value)->Ok_0).spec_value() == value,
            Rssi::spec_try_new(value) is Err ==> Rssi::spec_try_new(value) == Err::<Rssi, Error>(Error::InvalidRssiValue(value)),
    {
    }

    /// `try_new` of the raw value of a well-formed value gives that value back.
    pub proof fn lemma_try_new_spec_value(self)
        requires
            self.wf(),
        ensures
            Rssi::spec_try_new(self.spec_value()) == Ok::<Rssi, Error>(self),
    {
    }
}

impl Default for Rssi {
    fn default() -> (r: Rssi)
        ensures
            r.spec_value() == 0,
            r.wf(),
    {
        Rssi { value: 0 }
    }
}

impl TryFrom<i8> for Rssi {
    type Error = Error;

    fn try_from(value: i8) -> Result<Rssi, Error> {
        Rssi::try_new(value)
    }
}

impl vstd::std_specs::convert::TryFromSpecImpl<i8> for Rssi {
    open spec fn obeys_try_from_spec() -> bool {
        true
    }

    open spec fn try_from_spec(v: i8) -> Result<Rssi, Error> {
        Rssi::spec_try_new(v)
    }
}

} // verus!
