//! TX power level.
use vstd::prelude::*;

use crate::error::Error;

verus! {

/// The TX Power Level, that is to say the radiated power level, in dBm.
///
/// The value ranges from -127 to 20 dBm.
#[derive(Debug, Clone, Copy, PartialEq, Eq, Structural, PartialOrd, Ord)]
pub struct TxPowerLevel {
    value: i8,
}

impl TxPowerLevel {
    /// The valid TX power levels: -127 to 20 dBm.
    pub open spec fn spec_is_valid(value: i8) -> bool {
        -127 <= value <= 20
    }

    /// The raw value.
    pub closed spec fn spec_value(self) -> i8 {
        self.value
    }

    /// Well-formedness: the raw value is in the valid range.
    pub open spec fn wf(self) -> bool {
        TxPowerLevel::spec_is_valid(self.spec_value())
    }

    /// The outcome of `try_new`.
    pub closed spec fn spec_try_new(value: i8) -> Result<TxPowerLevel, Error> {
        if TxPowerLevel::spec_is_valid(value) {
            Ok(TxPowerLevel { value })
        } else {
            Err(Error::InvalidTxPowerLevelValue(value))
        }
    }

    /// Creates a valid value, checking its range.
    pub fn try_new(value: i8) -> (r: Result<TxPowerLevel, Error>)
        ensures
            r == TxPowerLevel::spec_try_new(value),
            r is Ok <==> TxPowerLevel::spec_is_valid(value),
            r matches Ok(v) ==> v.spec_value() == value && v.wf(),
            r is Err ==> r == Err::<TxPowerLevel, Error>(Error::InvalidTxPowerLevelValue(value)),
    {
        if -127 <= value && value <= 20 {
            Ok(TxPowerLevel { value })
        } else {
            Err(Error::InvalidTxPowerLevelValue(value))
        }
    }

    /// The raw value.
    pub fn value(&self) -> (r: i8)
        ensures
            r == self.spec_value(),
    {
        self.value
    }

    /// Values are determined by their raw value.
    pub proof fn lemma_spec_value_injective(a: TxPowerLevel, b: TxPowerLevel)
        ensures
            a.spec_value() == b.spec_value() ==> a == b,
    {
    }

    /// The raw value of a value made by `try_new` is the value given.
    pub proof fn lemma_spec_try_new_value(value: i8)
        ensures
            TxPowerLevel::spec_try_new(value) is Ok <==> TxPowerLevel::spec_is_valid(value),
            TxPowerLevel::spec_try_new(value) is Ok ==> (TxPowerLevel::spec_try_new(value)->Ok_0).spec_value() == value,
            TxPowerLevel::spec_try_new(value) is Err ==> TxPowerLevel::spec_try_new(value) == Err::<TxPowerLevel, Error>(Error::InvalidTxPowerLevelValue(value)),
    {
    }

    /// `try_new` of the raw value of a well-formed value gives that value back.
    pub proof fn lemma_try_new_spec_value(self)
        requires
            self.wf(),
        ensures
            TxPowerLevel::spec_try_new(self.spec_value()) == Ok::<TxPowerLevel, Error>(self),
    {
    }
}

impl Default for TxPowerLevel {
    fn default() -> (r: TxPowerLevel)
        ensures
            r.spec_value() == 0,
            r.wf(),
    {
        TxPowerLevel { value: 0 }
    }
}

impl TryFrom<i8> for TxPowerLevel {
    type Error = Error;

    fn try_from(value: i8) -> Result<TxPowerLevel, Error> {
        TxPowerLevel::try_new(value)
    }
}

impl vstd::std_specs::convert::TryFromSpecImpl<i8> for TxPowerLevel {
    open spec fn obeys_try_from_spec() -> bool {
        true
    }

    open spec fn try_from_spec(v: i8) -> Result<TxPowerLevel, Error> {
        TxPowerLevel::spec_try_new(v)
    }
}

} // verus!
