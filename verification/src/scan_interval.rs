//! Scan interval.
use vstd::prelude::*;

use crate::bytes::{push_u16_le, spec_u16_le_bytes};
use crate::encode::EncodeToBuffer;
use crate::error::Error;
use crate::scanning::scan_window::ScanWindow;
use core::cmp::Ordering;

verus! {

/// Scan interval.
///
/// The time interval from when the Controller started its last LE scan until it begins the subsequent LE scan.
///
/// Range: 0x0004 to 0x4000, default 0x0010 (10 ms), Time = N × 0.625 ms (2.5 ms to 10.24 s).
///
/// See Core Specification 6.0, Vol.4, Part E, 7.8.10.
#[derive(Debug, Clone, Copy, PartialEq, Eq, Structural, PartialOrd, Ord)]
pub struct ScanInterval {
    value: u16,
}

impl ScanInterval {
    /// The values accepted by `try_new`.
    pub open spec fn spec_is_valid(value: u16) -> bool {
        0x0004 <= value <= 0x4000
    }

    /// The raw value.
    pub closed spec fn spec_value(self) -> u16 {
        self.value
    }

    /// Well-formedness: the raw value is in the valid range.
    pub open spec fn wf(self) -> bool {
        ScanInterval::spec_is_valid(self.spec_value())
    }

    /// The outcome of `try_new`.
    pub closed spec fn spec_try_new(value: u16) -> Result<ScanInterval, Error> {
        if ScanInterval::spec_is_valid(value) {
            Ok(ScanInterval { value })
        } else {
            Err(Error::InvalidScanInterval(value))
        }
    }

    /// Creates a valid value, checking its range.
    pub fn try_new(value: u16) -> (r: Result<ScanInterval, Error>)
        ensures
            r == ScanInterval::spec_try_new(value),
            r is Ok <==> ScanInterval::spec_is_valid(value),
            r matches Ok(v) ==> v.spec_value() == value && v.wf(),
            r is Err ==> r == Err::<ScanInterval, Error>(Error::InvalidScanInterval(value)),
    {
        if 0x0004 <= value && value <= 0x4000 {
            Ok(ScanInterval { value })
        } else {
            Err(Error::InvalidScanInterval(value))
        }
    }

    /// The raw value.
    pub fn value(&self) -> (r: u16)
        ensures
            r == self.spec_value(),
    {
        self.value
    }

    /// Values are determined by their raw value.
    pub proof fn lemma_spec_value_injective(a: ScanInterval, b: ScanInterval)
        ensures
            a.spec_value() == b.spec_value() ==> a == b,
    {
    }

    /// The raw value of a value made by `try_new` is the value given.
    pub proof fn lemma_spec_try_new_value(value: u16)
        ensures
            ScanInterval::spec_try_new(value) is Ok <==> ScanInterval::spec_is_valid(value),
            ScanInterval::spec_try_new(value) is Ok ==> (ScanInterval::spec_try_new(value)->Ok_0).spec_value() == value,
            ScanInterval::spec_try_new(value) is Err ==> ScanInterval::spec_try_new(value) == Err::<ScanInterval, Error>(Error::InvalidScanInterval(value)),
    {
    }

    /// `try_new` of the raw value of a well-formed value gives that value back.
    pub proof fn lemma_try_new_spec_value(self)
        requires
            self.wf(),
        ensures
            ScanInterval::spec_try_new(self.spec_value()) == Ok::<ScanInterval, Error>(self),
    {
    }
}

impl Default for ScanInterval {
    fn default() -> (r: ScanInterval)
        ensures
            r.spec_value() == 0x0010,
            r.wf(),
    {
        ScanInterval { value: 0x0010 }
    }
}

impl TryFrom<u16> for ScanInterval {
    type Error = Error;

    fn try_from(value: u16) -> Result<ScanInterval, Error> {
        ScanInterval::try_new(value)
    }
}

impl vstd::std_specs::convert::TryFromSpecImpl<u16> for ScanInterval {
    open spec fn obeys_try_from_spec() -> bool {
        true
    }

    open spec fn try_from_spec(v: u16) -> Result<ScanInterval, Error> {
        ScanInterval::spec_try_new(v)
    }
}

impl EncodeToBuffer for ScanInterval {
    open spec fn spec_encode(&self) -> Seq<u8> {
        spec_u16_le_bytes(self.spec_value())
    }

    fn encode(&self, buffer: &mut Vec<u8>) -> (n: usize) {
        push_u16_le(buffer, self.value);
        2
    }

    fn encoded_size(&self) -> (n: usize) {
        2
    }
}

impl PartialEq<ScanWindow> for ScanInterval {
    fn eq(&self, other: &ScanWindow) -> (r: bool) {
        self.value == other.value()
    }
}

impl vstd::std_specs::cmp::PartialEqSpecImpl<ScanWindow> for ScanInterval {
    open spec fn obeys_eq_spec() -> bool {
        true
    }

    open spec fn eq_spec(&self, other: &ScanWindow) -> bool {
        self.spec_value() == other.spec_value()
    }
}

impl PartialOrd<ScanWindow> for ScanInterval {
    fn partial_cmp(&self, other: &ScanWindow) -> (r: Option<Ordering>) {
        let a = self.value;
        let b = other.value();
        if a < b {
            Some(Ordering::Less)
        } else if a == b {
            Some(Ordering::Equal)
        } else {
            Some(Ordering::Greater)
        }
    }
}

impl vstd::std_specs::cmp::PartialOrdSpecImpl<ScanWindow> for ScanInterval {
    open spec fn obeys_partial_cmp_spec() -> bool {
        true
    }

    open spec fn partial_cmp_spec(&self, other: &ScanWindow) -> Option<Ordering> {
        if self.spec_value() < other.spec_value() {
            Some(Ordering::Less)
        } else if self.spec_value() == other.spec_value() {
            Some(Ordering::Equal)
        } else {
            Some(Ordering::Greater)
        }
    }
}

} // verus!
